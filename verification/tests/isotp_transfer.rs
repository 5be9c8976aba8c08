use teensy4_bsp::isotp::codec::decode;
use teensy4_bsp::isotp::config::TransferConfig;
use teensy4_bsp::isotp::error::TransferError;
use teensy4_bsp::isotp::frame::{LinkFrame, Pdu};
use teensy4_bsp::isotp::link::{IsoTP, IsoTPBuilder};
use teensy4_bsp::isotp::reassembler::{ReceiveEvent, ReceiveState};
use teensy4_bsp::isotp::segmenter::SendState;
use teensy4_bsp::isotp::timing::{Timer, TimerConfig};
use teensy4_bsp::isotp::transfer::{reassemble, segment};

fn config(peer_id: u32) -> TransferConfig {
    TransferConfig::new(peer_id).unwrap()
}

fn padded(peer_id: u32) -> TransferConfig {
    let mut c = config(peer_id);
    c.use_padding = true;
    c.padding_value = 0xAA;
    c
}

fn payload(len: usize) -> Vec<u8> {
    (0..len).map(|i| (i * 31 + 17) as u8).collect()
}

#[test]
fn round_trip() {
    for len in [0usize, 1, 7, 8, 64, 4095] {
        let data = payload(len);
        for cfg in [config(0x7E0), padded(0x7E0)] {
            let frames = segment(&data, cfg).unwrap();
            assert_eq!(reassemble(&frames, 4095), Some(data.clone()));
        }
    }
}

#[test]
fn round_trip_of_every_length_up_to_100() {
    for len in 0..=100usize {
        let data = payload(len);
        let frames = segment(&data, padded(1)).unwrap();
        assert_eq!(reassemble(&frames, 100), Some(data));
    }
}

#[test]
fn segment_counts() {
    for (len, frames) in [(0usize, 1usize), (7, 1), (8, 2), (13, 2), (14, 3), (64, 10), (4095, 586)] {
        assert_eq!(segment(&payload(len), config(1)).unwrap().len(), frames);
    }
}

#[test]
fn segment_of_20_bytes() {
    let data: Vec<u8> = (1..=20).collect();
    let frames = segment(&data, config(0x123)).unwrap();
    assert_eq!(frames.len(), 3);
    assert_eq!(frames[0].data(), &vec![0x10, 0x14, 1, 2, 3, 4, 5, 6]);
    assert_eq!(frames[1].data(), &vec![0x21, 7, 8, 9, 10, 11, 12, 13]);
    assert_eq!(frames[2].data(), &vec![0x22, 14, 15, 16, 17, 18, 19, 20]);
    for f in &frames {
        assert_eq!(f.id(), 0x123);
    }
    let data: Vec<u8> = (1..=16).collect();
    let frames = segment(&data, config(0x123)).unwrap();
    assert_eq!(frames[2].data(), &vec![0x22, 14, 15, 16]);
    let frames = segment(&data, padded(0x123)).unwrap();
    assert_eq!(frames[2].data(), &vec![0x22, 14, 15, 16, 0xAA, 0xAA, 0xAA, 0xAA]);
}

#[test]
fn segment_refuses_more_than_4095_bytes() {
    assert!(matches!(segment(&payload(4096), config(1)), Err(TransferError::LengthOutOfRange)));
    assert!(matches!(segment(&payload(10_000), padded(1)), Err(TransferError::LengthOutOfRange)));
}

#[test]
fn segment_numbers_its_consecutive_frames() {
    let frames = segment(&payload(6 + 7 * 200), config(1)).unwrap();
    assert_eq!(frames.len(), 201);
    for (k, f) in frames[1..].iter().enumerate() {
        match decode(f) {
            Ok(Pdu::ConsecutiveFrame { sequence_number, .. }) => {
                assert_eq!(sequence_number as usize, k % 15 + 1);
            },
            other => panic!("{:?}", other),
        }
    }
}

#[test]
fn padded_frames_all_have_8_bytes() {
    for len in [0usize, 3, 7, 8, 9, 20, 100] {
        let data = payload(len);
        let with = segment(&data, padded(1)).unwrap();
        let without = segment(&data, config(1)).unwrap();
        assert_eq!(with.len(), without.len());
        for (w, wo) in with.iter().zip(without.iter()) {
            assert_eq!(w.data().len(), 8);
            let min = wo.data().len();
            assert_eq!(&w.data()[..min], &wo.data()[..]);
            assert!(w.data()[min..].iter().all(|b| *b == 0xAA));
        }
    }
}

#[test]
fn reassemble_needs_the_whole_transfer() {
    let data = payload(30);
    let frames = segment(&data, config(1)).unwrap();
    assert_eq!(reassemble(&frames[..frames.len() - 1], 4095), None);
    assert_eq!(reassemble(&frames[1..], 4095), None);
    assert_eq!(reassemble(&[], 4095), None);
    // A frame out of order.
    let mut swapped: Vec<LinkFrame> = frames.clone();
    swapped.swap(1, 2);
    assert_eq!(reassemble(&swapped, 4095), None);
    // No room.
    assert_eq!(reassemble(&frames, 29), None);
    assert_eq!(reassemble(&frames, 30), Some(data));
}

#[test]
fn reassemble_returns_what_the_last_frame_completes() {
    let mut frames = segment(&payload(30), config(1)).unwrap();
    frames.extend(segment(&[1, 2, 3], config(1)).unwrap());
    assert_eq!(reassemble(&frames, 4095), Some(vec![1, 2, 3]));
    let mut frames = segment(&[1, 2, 3], config(1)).unwrap();
    frames.extend(segment(&payload(30), config(1)).unwrap());
    assert_eq!(reassemble(&frames, 4095), Some(payload(30)));
}

/// Runs a transfer from `a` to `b`, each frame arriving as soon as it is
/// sent, and returns the payload that `b` delivers with the numbers of data
/// frames and flow control frames that went over the link.
fn run(a: &mut IsoTP, b: &mut IsoTP, data: Vec<u8>) -> (Vec<u8>, usize, usize) {
    let mut now = 0u64;
    let mut data_frames = 0usize;
    let mut flow_controls = 0usize;
    let mut to_b = vec![a.send(data, now).unwrap()];
    loop {
        now += 10;
        for f in to_b.drain(..) {
            data_frames += 1;
            match b.on_frame(&f, now) {
                ReceiveEvent::Delivered(payload) => return (payload, data_frames, flow_controls),
                ReceiveEvent::FlowControl(fc) => {
                    flow_controls += 1;
                    assert!(matches!(a.on_frame(&fc, now), ReceiveEvent::Nothing));
                },
                ReceiveEvent::Nothing => {},
                other => panic!("{:?}", other),
            }
        }
        let (frame, event) = a.poll(now);
        assert!(matches!(event, ReceiveEvent::Nothing));
        if let Some(f) = frame {
            to_b.push(f);
        }
        assert!(now < 100_000_000);
    }
}

#[test]
fn links_transfer_under_flow_control() {
    for len in [0usize, 1, 7, 8, 64, 1000] {
        for block_size in [0u8, 1, 3, 255] {
            for st in [0u8, 2, 0xF1] {
                let mut b_cfg = padded(0x7E8);
                b_cfg.block_size = block_size;
                b_cfg.separation_time = st;
                let mut a = IsoTPBuilder::new(config(0x7E0)).build();
                let mut b = IsoTPBuilder::new(b_cfg).receive_capacity(1000).build();
                let (payload_out, data_frames, flow_controls) = run(&mut a, &mut b, payload(len));
                assert_eq!(payload_out, payload(len));
                let consecutive = if len <= 7 { 0 } else { (len - 6 + 6) / 7 };
                assert_eq!(data_frames, 1 + consecutive);
                let expected_flow_controls = if len <= 7 {
                    0
                } else if block_size == 0 {
                    1
                } else {
                    1 + (consecutive - 1) / block_size as usize
                };
                assert_eq!(flow_controls, expected_flow_controls);
                assert_eq!(a.sender.session.state, SendState::Complete);
            }
        }
    }
}

#[test]
fn builder_sets_up_a_link() {
    let link = IsoTPBuilder::new(config(0x7E0)).build();
    assert_eq!(link.config(), config(0x7E0));
    assert_eq!(link.receive_capacity(), 1024);
    assert_eq!(link.sender.timers, TimerConfig::default());
    assert_eq!(link.sender.session.state, SendState::Idle);
    assert_eq!(link.receiver.session.state, ReceiveState::Idle);
    let timers = TimerConfig { n_bs: 1, ..TimerConfig::default() };
    let link = IsoTPBuilder::new(padded(5)).timers(timers).receive_capacity(64).build();
    assert_eq!(link.config(), padded(5));
    assert_eq!(link.receive_capacity(), 64);
    assert_eq!(link.sender.timers, timers);
    assert_eq!(link.receiver.timers, timers);
}

#[test]
fn link_refuses_an_overlong_payload_before_anything_is_sent() {
    let mut link = IsoTPBuilder::new(config(1)).build();
    assert!(matches!(link.send(payload(4096), 0), Err(TransferError::LengthOutOfRange)));
    assert_eq!(link.sender.session.state, SendState::Idle);
    let (frame, _) = link.poll(1);
    assert!(frame.is_none());
}

#[test]
fn link_rejects_a_transfer_beyond_its_capacity() {
    let mut a = IsoTPBuilder::new(config(1)).build();
    let mut b = IsoTPBuilder::new(config(2)).build();
    let first = a.send(payload(2000), 0).unwrap();
    let fc = match b.on_frame(&first, 1) {
        ReceiveEvent::Rejected(fc) => fc,
        other => panic!("{:?}", other),
    };
    assert_eq!(fc.data(), &vec![0x32, 0, 0]);
    assert_eq!(b.receiver.session.state, ReceiveState::Idle);
    assert!(b.receiver.session.reassembly_buffer.is_empty());
    a.on_frame(&fc, 2);
    assert_eq!(a.sender.session.state, SendState::Aborted);
    assert_eq!(a.sender.session.error, Some(TransferError::PeerAborted));
}

#[test]
fn link_routes_flow_control_to_the_sender_only() {
    let mut link = IsoTPBuilder::new(config(1)).build();
    link.send(payload(50), 0).unwrap();
    let fc = LinkFrame::new(2, vec![0x30, 0, 0]).unwrap();
    assert!(matches!(link.on_frame(&fc, 1), ReceiveEvent::Nothing));
    assert_eq!(link.sender.session.state, SendState::SendingBlock);
    assert_eq!(link.receiver.session.state, ReceiveState::Idle);
    // A data frame leaves the sender alone.
    let sf = LinkFrame::new(2, vec![0x01, 9]).unwrap();
    assert!(matches!(link.on_frame(&sf, 1), ReceiveEvent::Delivered(p) if p == vec![9]));
    assert_eq!(link.sender.session.state, SendState::SendingBlock);
    // A malformed frame changes nothing.
    let bad = LinkFrame::new(2, vec![0xF0]).unwrap();
    assert!(matches!(link.on_frame(&bad, 1), ReceiveEvent::Failed(TransferError::UnknownPci)));
    assert_eq!(link.sender.session.state, SendState::SendingBlock);
}

#[test]
fn link_poll_reports_both_timeouts() {
    let timers = TimerConfig { n_bs: 10, n_cr: 20, ..TimerConfig::default() };
    let mut link = IsoTPBuilder::new(config(1)).timers(timers).build();
    link.send(payload(50), 0).unwrap();
    let ff = LinkFrame::new(2, vec![0x10, 0x20, 1, 2, 3, 4, 5, 6]).unwrap();
    assert!(matches!(link.on_frame(&ff, 0), ReceiveEvent::FlowControl(_)));
    let (frame, event) = link.poll(11);
    assert!(frame.is_none());
    assert!(matches!(event, ReceiveEvent::Nothing));
    assert_eq!(link.sender.session.state, SendState::Aborted);
    assert_eq!(link.sender.session.error, Some(TransferError::Timeout { timer: Timer::NBs }));
    let (_, event) = link.poll(21);
    assert!(matches!(event, ReceiveEvent::Failed(TransferError::Timeout { timer: Timer::NCr })));
    assert_eq!(link.receiver.session.state, ReceiveState::Aborted);
}

#[test]
fn link_reply_failure_aborts_the_receive_session_only() {
    let mut link = IsoTPBuilder::new(config(1)).build();
    link.send(payload(50), 0).unwrap();
    let ff = LinkFrame::new(2, vec![0x10, 0x20, 1, 2, 3, 4, 5, 6]).unwrap();
    assert!(matches!(link.on_frame(&ff, 0), ReceiveEvent::FlowControl(_)));
    let event = link.on_reply_failure();
    assert_eq!(event.error(), Some(TransferError::TransmitFailure));
    assert_eq!(link.receiver.session.state, ReceiveState::Aborted);
    assert_eq!(link.sender.session.state, SendState::AwaitingFlowControl);
}

#[test]
fn link_abort_and_transmit_failure() {
    let mut link = IsoTPBuilder::new(config(1)).build();
    link.send(payload(50), 0).unwrap();
    link.on_transmit_failure();
    assert_eq!(link.sender.session.error, Some(TransferError::TransmitFailure));
    let ff = LinkFrame::new(2, vec![0x10, 0x20, 1, 2, 3, 4, 5, 6]).unwrap();
    link.on_frame(&ff, 0);
    link.abort();
    assert_eq!(link.sender.session.state, SendState::Aborted);
    assert_eq!(link.receiver.session.state, ReceiveState::Aborted);
    link.abort();
    assert_eq!(link.sender.session.state, SendState::Aborted);
    assert_eq!(link.receiver.session.state, ReceiveState::Aborted);
}

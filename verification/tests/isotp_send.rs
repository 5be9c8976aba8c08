use teensy4_bsp::isotp::codec::decode;
use teensy4_bsp::isotp::config::TransferConfig;
use teensy4_bsp::isotp::error::TransferError;
use teensy4_bsp::isotp::frame::{FlowStatus, Pdu};
use teensy4_bsp::isotp::segmentation::following_sequence_number;
use teensy4_bsp::isotp::segmenter::{Segmenter, SendSession, SendState};
use teensy4_bsp::isotp::timing::{Timer, TimerConfig};

fn config() -> TransferConfig {
    TransferConfig::new(0x7E0).unwrap()
}

fn payload(len: usize) -> Vec<u8> {
    (0..len).map(|i| (i * 7 + 3) as u8).collect()
}

fn segmenter() -> Segmenter {
    Segmenter::new(config(), TimerConfig::default())
}

#[test]
fn new_session_is_idle() {
    let s = segmenter();
    assert_eq!(s.session.state, SendState::Idle);
    assert_eq!(s.session.error, None);
    assert_eq!(SendSession::idle().state, SendState::Idle);
    assert_eq!(SendSession::idle().next_sequence_number, 1);
}

#[test]
fn sequence_numbers_wrap_from_15_to_1() {
    assert_eq!(following_sequence_number(1), 2);
    assert_eq!(following_sequence_number(14), 15);
    assert_eq!(following_sequence_number(15), 1);
    let mut sn = 1u8;
    for k in 0..200usize {
        assert_eq!(sn as usize, k % 15 + 1);
        sn = following_sequence_number(sn);
    }
}

#[test]
fn start_with_short_payload_sends_one_single_frame() {
    for len in [0usize, 1, 7] {
        let mut s = segmenter();
        let frame = s.start(payload(len), config(), 0).unwrap();
        assert_eq!(s.session.state, SendState::Complete);
        assert_eq!(frame.id(), 0x7E0);
        assert_eq!(frame.data().len(), 1 + len);
        assert_eq!(frame.data()[0], len as u8);
        assert_eq!(&frame.data()[1..], &payload(len)[..]);
        assert!(s.poll(1).is_none());
        assert_eq!(s.session.state, SendState::Complete);
    }
}

#[test]
fn start_with_long_payload_sends_first_frame_and_waits() {
    let mut s = segmenter();
    let frame = s.start(payload(8), config(), 100).unwrap();
    assert_eq!(frame.data(), &vec![0x10, 0x08, 3, 10, 17, 24, 31, 38]);
    assert_eq!(s.session.state, SendState::AwaitingFlowControl);
    assert_eq!(s.session.next_sequence_number, 1);
    assert_eq!(s.session.frames_sent_in_block, 0);
    assert_eq!(s.session.bytes_sent, 6);
    assert_eq!(s.session.total_length, 8);
    assert_eq!(s.session.flow_control_deadline.timer, Timer::NBs);
    assert_eq!(s.session.flow_control_deadline.expires_at, 1_000_100);
    // Nothing goes out before the peer's flow control frame.
    assert!(s.poll(200).is_none());
    assert_eq!(s.session.state, SendState::AwaitingFlowControl);
}

#[test]
fn start_refuses_more_than_4095_bytes() {
    let mut s = segmenter();
    assert!(s.start(payload(4095), config(), 0).is_ok());
    let before = s.session;
    let r = s.start(payload(4096), config(), 0);
    assert!(matches!(r, Err(TransferError::LengthOutOfRange)));
    assert_eq!(s.session.state, before.state);
    assert_eq!(s.session.bytes_sent, before.bytes_sent);
    assert_eq!(s.payload.len(), 4095);
    let mut idle = segmenter();
    assert!(matches!(idle.queue(payload(5000), config()), Err(TransferError::LengthOutOfRange)));
    assert_eq!(idle.session.state, SendState::Idle);
}

#[test]
fn queue_waits_for_the_first_poll() {
    let mut s = segmenter();
    s.queue(payload(20), config()).unwrap();
    assert_eq!(s.session.state, SendState::AwaitingFirstSend);
    let first = s.poll(5).unwrap();
    assert_eq!(first.data()[0], 0x10);
    assert_eq!(first.data()[1], 20);
    assert_eq!(s.session.state, SendState::AwaitingFlowControl);
}

#[test]
fn block_size_zero_sends_all_consecutive_frames_after_one_flow_control() {
    let mut s = segmenter();
    let data = payload(1000);
    let first = s.start(data.clone(), config(), 0).unwrap();
    assert_eq!(first.data()[0], 0x13);
    assert_eq!(first.data()[1], 0xE8);
    s.on_flow_control(FlowStatus::ClearToSend, 0, 0, 10);
    assert_eq!(s.session.state, SendState::SendingBlock);
    let mut received: Vec<u8> = first.data()[2..].to_vec();
    let mut consecutive = 0usize;
    while s.session.state == SendState::SendingBlock {
        let frame = s.poll(10).unwrap();
        consecutive += 1;
        assert_ne!(s.session.state, SendState::AwaitingFlowControl);
        received.extend_from_slice(&frame.data()[1..]);
    }
    assert_eq!(s.session.state, SendState::Complete);
    assert_eq!(consecutive, 142);
    assert_eq!(received, data);
    assert!(s.poll(11).is_none());
}

#[test]
fn block_size_three_needs_one_flow_control_per_three_frames() {
    let mut s = segmenter();
    s.start(payload(1000), config(), 0).unwrap();
    let mut flow_controls = 0usize;
    let mut consecutive = 0usize;
    loop {
        match s.session.state {
            SendState::AwaitingFlowControl => {
                assert!(s.poll(0).is_none());
                s.on_flow_control(FlowStatus::ClearToSend, 3, 0, 0);
                flow_controls += 1;
                assert_eq!(s.session.frames_sent_in_block, 0);
            },
            SendState::SendingBlock => {
                assert!(s.poll(0).is_some());
                consecutive += 1;
                if s.session.state == SendState::AwaitingFlowControl {
                    assert_eq!(s.session.frames_sent_in_block, 3);
                    assert_eq!(consecutive % 3, 0);
                }
            },
            SendState::Complete => break,
            other => panic!("{:?}", other),
        }
    }
    assert_eq!(consecutive, 142);
    // One for the first frame, one behind each of the 47 full blocks.
    assert_eq!(flow_controls, 48);
}

#[test]
fn consecutive_frames_carry_1_to_15_and_1_again() {
    let mut s = segmenter();
    s.start(payload(6 + 7 * 200), config(), 0).unwrap();
    s.on_flow_control(FlowStatus::ClearToSend, 0, 0, 0);
    let mut k = 0usize;
    while let Some(frame) = s.poll(0) {
        match decode(&frame) {
            Ok(Pdu::ConsecutiveFrame { sequence_number, payload_chunk }) => {
                assert_eq!(sequence_number as usize, k % 15 + 1);
                assert_ne!(sequence_number, 0);
                assert_eq!(payload_chunk.len(), 7);
            },
            other => panic!("{:?}", other),
        }
        k += 1;
    }
    assert_eq!(k, 200);
    assert_eq!(s.session.state, SendState::Complete);
}

#[test]
fn separation_time_spaces_consecutive_frames() {
    let mut s = segmenter();
    s.start(payload(30), config(), 0).unwrap();
    // 0x0A: 10 ms between consecutive frames.
    s.on_flow_control(FlowStatus::ClearToSend, 0, 0x0A, 1_000);
    assert_eq!(s.session.separation_us, 10_000);
    assert_eq!(s.session.block_size, 0);
    assert!(s.poll(1_000).is_some());
    assert_eq!(s.session.next_send_at, 11_000);
    assert!(s.poll(1_001).is_none());
    assert!(s.poll(10_999).is_none());
    assert!(s.poll(11_000).is_some());
    assert!(s.poll(11_000).is_none());
    assert!(s.poll(21_000).is_some());
    // 0xF3: 300 microseconds.
    let mut s = segmenter();
    s.start(payload(30), config(), 0).unwrap();
    s.on_flow_control(FlowStatus::ClearToSend, 0, 0xF3, 0);
    assert_eq!(s.session.separation_us, 300);
    // A reserved code: 1 ms.
    let mut s = segmenter();
    s.start(payload(30), config(), 0).unwrap();
    s.on_flow_control(FlowStatus::ClearToSend, 0, 0xFA, 0);
    assert_eq!(s.session.separation_us, 1_000);
}

#[test]
fn flow_control_timeout_aborts_the_send_session() {
    let timers = TimerConfig { n_bs: 5_000, ..TimerConfig::default() };
    let mut s = Segmenter::new(config(), timers);
    s.start(payload(100), config(), 1_000).unwrap();
    assert!(s.poll(6_000).is_none());
    assert_eq!(s.session.state, SendState::AwaitingFlowControl);
    assert!(s.poll(6_001).is_none());
    assert_eq!(s.session.state, SendState::Aborted);
    assert_eq!(s.session.error, Some(TransferError::Timeout { timer: Timer::NBs }));
    // Aborted is terminal.
    s.on_flow_control(FlowStatus::ClearToSend, 0, 0, 6_002);
    assert_eq!(s.session.state, SendState::Aborted);
    assert!(s.poll(6_003).is_none());
}

#[test]
fn late_flow_control_is_a_timeout() {
    let timers = TimerConfig { n_bs: 5_000, ..TimerConfig::default() };
    let mut s = Segmenter::new(config(), timers);
    s.start(payload(100), config(), 0).unwrap();
    s.on_flow_control(FlowStatus::ClearToSend, 0, 0, 5_001);
    assert_eq!(s.session.state, SendState::Aborted);
    assert_eq!(s.session.error, Some(TransferError::Timeout { timer: Timer::NBs }));
    let mut s = Segmenter::new(config(), timers);
    s.start(payload(100), config(), 0).unwrap();
    s.on_flow_control(FlowStatus::ClearToSend, 0, 0, 5_000);
    assert_eq!(s.session.state, SendState::SendingBlock);
}

#[test]
fn flow_control_timeout_between_blocks() {
    let timers = TimerConfig { n_bs: 100, ..TimerConfig::default() };
    let mut s = Segmenter::new(config(), timers);
    s.start(payload(100), config(), 0).unwrap();
    s.on_flow_control(FlowStatus::ClearToSend, 1, 0, 50);
    assert!(s.poll(60).is_some());
    assert_eq!(s.session.state, SendState::AwaitingFlowControl);
    assert_eq!(s.session.flow_control_deadline.expires_at, 160);
    assert!(s.poll(160).is_none());
    assert_eq!(s.session.state, SendState::AwaitingFlowControl);
    assert!(s.poll(161).is_none());
    assert_eq!(s.session.state, SendState::Aborted);
    assert_eq!(s.session.error, Some(TransferError::Timeout { timer: Timer::NBs }));
}

#[test]
fn wait_frames_restart_the_timer_up_to_the_limit() {
    let mut cfg = config();
    cfg.flow_control_policy.max_wait_frames = 2;
    let timers = TimerConfig { n_bs: 100, ..TimerConfig::default() };
    let mut s = Segmenter::new(cfg, timers);
    s.start(payload(100), cfg, 0).unwrap();
    s.on_flow_control(FlowStatus::Wait, 0, 0, 90);
    assert_eq!(s.session.state, SendState::AwaitingFlowControl);
    assert_eq!(s.session.wait_frames, 1);
    assert_eq!(s.session.flow_control_deadline.expires_at, 190);
    assert!(s.poll(150).is_none());
    assert_eq!(s.session.state, SendState::AwaitingFlowControl);
    s.on_flow_control(FlowStatus::Wait, 0, 0, 180);
    assert_eq!(s.session.wait_frames, 2);
    assert_eq!(s.session.state, SendState::AwaitingFlowControl);
    s.on_flow_control(FlowStatus::Wait, 0, 0, 200);
    assert_eq!(s.session.state, SendState::Aborted);
    assert_eq!(s.session.error, Some(TransferError::PeerAborted));
}

#[test]
fn clear_to_send_resets_the_wait_count() {
    let mut cfg = config();
    cfg.flow_control_policy.max_wait_frames = 1;
    let mut s = Segmenter::new(cfg, TimerConfig::default());
    s.start(payload(100), cfg, 0).unwrap();
    s.on_flow_control(FlowStatus::Wait, 0, 0, 1);
    s.on_flow_control(FlowStatus::ClearToSend, 1, 0, 2);
    assert_eq!(s.session.wait_frames, 0);
    assert!(s.poll(2).is_some());
    assert_eq!(s.session.state, SendState::AwaitingFlowControl);
    s.on_flow_control(FlowStatus::Wait, 0, 0, 3);
    assert_eq!(s.session.state, SendState::AwaitingFlowControl);
    s.on_flow_control(FlowStatus::Wait, 0, 0, 4);
    assert_eq!(s.session.state, SendState::Aborted);
}

#[test]
fn overflow_from_the_peer_aborts_at_once() {
    let mut s = segmenter();
    s.start(payload(100), config(), 0).unwrap();
    s.on_flow_control(FlowStatus::Overflow, 0, 0, 1);
    assert_eq!(s.session.state, SendState::Aborted);
    assert_eq!(s.session.error, Some(TransferError::PeerAborted));
}

#[test]
fn flow_control_outside_the_wait_is_passed_over() {
    let mut s = segmenter();
    s.on_flow_control(FlowStatus::ClearToSend, 0, 0, 0);
    assert_eq!(s.session.state, SendState::Idle);
    s.start(payload(3), config(), 0).unwrap();
    s.on_flow_control(FlowStatus::Overflow, 0, 0, 0);
    assert_eq!(s.session.state, SendState::Complete);
    s.start(payload(30), config(), 0).unwrap();
    s.on_flow_control(FlowStatus::ClearToSend, 0, 0, 0);
    s.on_flow_control(FlowStatus::Overflow, 0, 0, 0);
    assert_eq!(s.session.state, SendState::SendingBlock);
}

#[test]
fn transmit_failure_aborts() {
    // Of a first frame: reported as it is.
    let mut s = segmenter();
    s.start(payload(100), config(), 0).unwrap();
    s.on_transmit_failure();
    assert_eq!(s.session.state, SendState::Aborted);
    assert_eq!(s.session.error, Some(TransferError::TransmitFailure));
    // Of a single frame.
    let mut s = segmenter();
    s.start(payload(5), config(), 0).unwrap();
    s.on_transmit_failure();
    assert_eq!(s.session.state, SendState::Aborted);
    assert_eq!(s.session.error, Some(TransferError::TransmitFailure));
    // Of a consecutive frame: the pace of the block is broken.
    let mut s = segmenter();
    s.start(payload(100), config(), 0).unwrap();
    s.on_flow_control(FlowStatus::ClearToSend, 0, 0, 0);
    assert!(s.poll(0).is_some());
    s.on_transmit_failure();
    assert_eq!(s.session.state, SendState::Aborted);
    assert_eq!(s.session.error, Some(TransferError::Timeout { timer: Timer::NCs }));
    // With nothing sent there is nothing to fail.
    let mut s = segmenter();
    s.on_transmit_failure();
    assert_eq!(s.session.state, SendState::Idle);
    s.queue(payload(5), config()).unwrap();
    s.on_transmit_failure();
    assert_eq!(s.session.state, SendState::AwaitingFirstSend);
}

#[test]
fn abort_is_idempotent() {
    let mut s = segmenter();
    s.start(payload(100), config(), 0).unwrap();
    s.abort();
    assert_eq!(s.session.state, SendState::Aborted);
    assert_eq!(s.session.error, None);
    let bytes_sent = s.session.bytes_sent;
    s.abort();
    assert_eq!(s.session.state, SendState::Aborted);
    assert_eq!(s.session.error, None);
    assert_eq!(s.session.bytes_sent, bytes_sent);
    assert!(s.poll(0).is_none());
}

#[test]
fn start_after_the_end_begins_anew() {
    let mut s = segmenter();
    s.start(payload(100), config(), 0).unwrap();
    s.on_flow_control(FlowStatus::Overflow, 0, 0, 1);
    assert_eq!(s.session.state, SendState::Aborted);
    let frame = s.start(payload(9), config(), 2).unwrap();
    assert_eq!(frame.data()[1], 9);
    assert_eq!(s.session.state, SendState::AwaitingFlowControl);
    assert_eq!(s.session.error, None);
    assert_eq!(s.session.wait_frames, 0);
}

#[test]
fn padded_sender_fills_the_last_consecutive_frame() {
    let mut cfg = config();
    cfg.use_padding = true;
    cfg.padding_value = 0xAA;
    let mut s = Segmenter::new(cfg, TimerConfig::default());
    let first = s.start(payload(9), cfg, 0).unwrap();
    assert_eq!(first.data().len(), 8);
    s.on_flow_control(FlowStatus::ClearToSend, 0, 0, 0);
    let last = s.poll(0).unwrap();
    assert_eq!(last.data(), &vec![0x21, 45, 52, 59, 0xAA, 0xAA, 0xAA, 0xAA]);
    assert_eq!(s.session.state, SendState::Complete);
    let mut s = Segmenter::new(cfg, TimerConfig::default());
    let single = s.start(vec![1, 2], cfg, 0).unwrap();
    assert_eq!(single.data(), &vec![0x02, 1, 2, 0xAA, 0xAA, 0xAA, 0xAA, 0xAA]);
}

use teensy4_bsp::isotp::codec::{copy_of_range, decode, encode};
use teensy4_bsp::isotp::config::{TransferConfig, MAX_ID};
use teensy4_bsp::isotp::error::{DecodeError, TransferError};
use teensy4_bsp::isotp::frame::{FlowStatus, LinkFrame, Pdu};

fn plain(peer_id: u32) -> TransferConfig {
    TransferConfig::new(peer_id).unwrap()
}

fn padded(peer_id: u32, padding_value: u8) -> TransferConfig {
    let mut config = plain(peer_id);
    config.use_padding = true;
    config.padding_value = padding_value;
    config
}

fn frame(data: &[u8]) -> LinkFrame {
    LinkFrame::new(0x123, data.to_vec()).unwrap()
}

#[test]
fn config_takes_identifiers_of_up_to_29_bits() {
    assert!(TransferConfig::new(0).is_some());
    assert!(TransferConfig::new(0x7FF).is_some());
    assert!(TransferConfig::new(MAX_ID).is_some());
    assert!(TransferConfig::new(MAX_ID + 1).is_none());
    let config = plain(0x7E0);
    assert_eq!(config.peer_id, 0x7E0);
    assert!(!config.use_padding);
    assert_eq!(config.block_size, 0);
    assert_eq!(config.separation_time, 0);
    assert_eq!(config.flow_control_policy.max_wait_frames, 0);
}

#[test]
fn link_frame_takes_up_to_8_bytes() {
    assert!(LinkFrame::new(0x7FF, vec![]).is_some());
    assert!(LinkFrame::new(0x7FF, vec![0; 8]).is_some());
    assert!(LinkFrame::new(0x7FF, vec![0; 9]).is_none());
    assert!(LinkFrame::new(0x1FFF_FFFF, vec![1]).is_some());
    assert!(LinkFrame::new(0x2000_0000, vec![1]).is_none());
    let f = LinkFrame::new(0x18DA_F110, vec![1, 2, 3]).unwrap();
    assert_eq!(f.id(), 0x18DA_F110);
    assert_eq!(f.data(), &vec![1, 2, 3]);
    let copy = f.clone();
    assert_eq!(copy.id(), f.id());
    assert_eq!(copy.data(), f.data());
}

#[test]
fn flow_status_codes() {
    assert_eq!(FlowStatus::ClearToSend.code(), 0);
    assert_eq!(FlowStatus::Wait.code(), 1);
    assert_eq!(FlowStatus::Overflow.code(), 2);
    assert_eq!(FlowStatus::from_code(0), Some(FlowStatus::ClearToSend));
    assert_eq!(FlowStatus::from_code(1), Some(FlowStatus::Wait));
    assert_eq!(FlowStatus::from_code(2), Some(FlowStatus::Overflow));
    assert_eq!(FlowStatus::from_code(3), None);
    assert_eq!(FlowStatus::from_code(15), None);
}

#[test]
fn copy_of_range_copies_the_range() {
    assert_eq!(copy_of_range(&[1, 2, 3, 4, 5], 1, 4), vec![2, 3, 4]);
    assert_eq!(copy_of_range(&[1, 2, 3], 0, 3), vec![1, 2, 3]);
    assert_eq!(copy_of_range(&[1, 2, 3], 2, 2), Vec::<u8>::new());
}

#[test]
fn encode_single_frame_without_padding() {
    let pdu = Pdu::SingleFrame { length: 3, payload: vec![0xDE, 0xAD, 0xBE] };
    let f = encode(&pdu, &plain(0x7E0));
    assert_eq!(f.id(), 0x7E0);
    assert_eq!(f.data(), &vec![0x03, 0xDE, 0xAD, 0xBE]);
    let empty = Pdu::SingleFrame { length: 0, payload: vec![] };
    assert_eq!(encode(&empty, &plain(0x7E0)).data(), &vec![0x00]);
}

#[test]
fn encode_first_frame() {
    let pdu = Pdu::FirstFrame { total_length: 0x123, payload_prefix: vec![1, 2, 3, 4, 5, 6] };
    let f = encode(&pdu, &plain(0x7E0));
    assert_eq!(f.data(), &vec![0x11, 0x23, 1, 2, 3, 4, 5, 6]);
    let longest = Pdu::FirstFrame { total_length: 4095, payload_prefix: vec![9; 6] };
    assert_eq!(encode(&longest, &plain(1)).data(), &vec![0x1F, 0xFF, 9, 9, 9, 9, 9, 9]);
    let shortest = Pdu::FirstFrame { total_length: 8, payload_prefix: vec![7; 6] };
    assert_eq!(encode(&shortest, &padded(1, 0xAA)).data(), &vec![0x10, 0x08, 7, 7, 7, 7, 7, 7]);
}

#[test]
fn encode_consecutive_frame() {
    let pdu = Pdu::ConsecutiveFrame { sequence_number: 5, payload_chunk: vec![1, 2] };
    assert_eq!(encode(&pdu, &plain(2)).data(), &vec![0x25, 1, 2]);
    let full = Pdu::ConsecutiveFrame { sequence_number: 15, payload_chunk: vec![1, 2, 3, 4, 5, 6, 7] };
    assert_eq!(encode(&full, &padded(2, 0x55)).data(), &vec![0x2F, 1, 2, 3, 4, 5, 6, 7]);
}

#[test]
fn encode_flow_control() {
    let cts = Pdu::FlowControl {
        status: FlowStatus::ClearToSend,
        block_size: 8,
        separation_time_code: 0x14,
    };
    assert_eq!(encode(&cts, &plain(3)).data(), &vec![0x30, 8, 0x14]);
    let wait = Pdu::FlowControl { status: FlowStatus::Wait, block_size: 0, separation_time_code: 0 };
    assert_eq!(encode(&wait, &plain(3)).data(), &vec![0x31, 0, 0]);
    let overflow = Pdu::FlowControl {
        status: FlowStatus::Overflow,
        block_size: 0,
        separation_time_code: 0,
    };
    assert_eq!(encode(&overflow, &padded(3, 0xCC)).data(), &vec![0x32, 0, 0, 0xCC, 0xCC, 0xCC, 0xCC, 0xCC]);
}

#[test]
fn padding_fills_every_frame_to_8_bytes() {
    let config = padded(0x7E0, 0xAA);
    let pdus = vec![
        Pdu::SingleFrame { length: 0, payload: vec![] },
        Pdu::SingleFrame { length: 2, payload: vec![1, 2] },
        Pdu::SingleFrame { length: 7, payload: vec![1, 2, 3, 4, 5, 6, 7] },
        Pdu::FirstFrame { total_length: 20, payload_prefix: vec![1, 2, 3, 4, 5, 6] },
        Pdu::ConsecutiveFrame { sequence_number: 1, payload_chunk: vec![] },
        Pdu::ConsecutiveFrame { sequence_number: 2, payload_chunk: vec![9, 9, 9] },
        Pdu::FlowControl { status: FlowStatus::Wait, block_size: 1, separation_time_code: 2 },
    ];
    let minimum = [1usize, 3, 8, 8, 1, 4, 3];
    for (pdu, min) in pdus.iter().zip(minimum) {
        let with = encode(pdu, &config);
        assert_eq!(with.data().len(), 8);
        for i in min..8 {
            assert_eq!(with.data()[i], 0xAA);
        }
        let without = encode(pdu, &plain(0x7E0));
        assert_eq!(without.data().len(), min);
        assert_eq!(&with.data()[..min], &without.data()[..]);
    }
}

#[test]
fn decode_single_frame() {
    match decode(&frame(&[0x03, 1, 2, 3])) {
        Ok(Pdu::SingleFrame { length, payload }) => {
            assert_eq!(length, 3);
            assert_eq!(payload, vec![1, 2, 3]);
        },
        other => panic!("{:?}", other),
    }
    // Padding behind the announced length is no payload.
    match decode(&frame(&[0x02, 1, 2, 0xAA, 0xAA, 0xAA, 0xAA, 0xAA])) {
        Ok(Pdu::SingleFrame { length, payload }) => {
            assert_eq!(length, 2);
            assert_eq!(payload, vec![1, 2]);
        },
        other => panic!("{:?}", other),
    }
    match decode(&frame(&[0x00])) {
        Ok(Pdu::SingleFrame { length, payload }) => {
            assert_eq!(length, 0);
            assert!(payload.is_empty());
        },
        other => panic!("{:?}", other),
    }
}

#[test]
fn decode_first_frame() {
    match decode(&frame(&[0x1F, 0xFF, 1, 2, 3, 4, 5, 6])) {
        Ok(Pdu::FirstFrame { total_length, payload_prefix }) => {
            assert_eq!(total_length, 4095);
            assert_eq!(payload_prefix, vec![1, 2, 3, 4, 5, 6]);
        },
        other => panic!("{:?}", other),
    }
    match decode(&frame(&[0x10, 0x08, 1, 2, 3, 4, 5, 6])) {
        Ok(Pdu::FirstFrame { total_length, .. }) => assert_eq!(total_length, 8),
        other => panic!("{:?}", other),
    }
}

#[test]
fn decode_consecutive_frame() {
    match decode(&frame(&[0x2A, 1, 2, 3])) {
        Ok(Pdu::ConsecutiveFrame { sequence_number, payload_chunk }) => {
            assert_eq!(sequence_number, 10);
            assert_eq!(payload_chunk, vec![1, 2, 3]);
        },
        other => panic!("{:?}", other),
    }
    match decode(&frame(&[0x20])) {
        Ok(Pdu::ConsecutiveFrame { sequence_number, payload_chunk }) => {
            assert_eq!(sequence_number, 0);
            assert!(payload_chunk.is_empty());
        },
        other => panic!("{:?}", other),
    }
}

#[test]
fn decode_flow_control() {
    match decode(&frame(&[0x30, 4, 0xF5])) {
        Ok(Pdu::FlowControl { status, block_size, separation_time_code }) => {
            assert_eq!(status, FlowStatus::ClearToSend);
            assert_eq!(block_size, 4);
            assert_eq!(separation_time_code, 0xF5);
        },
        other => panic!("{:?}", other),
    }
    assert!(matches!(
        decode(&frame(&[0x31, 0, 0, 0, 0, 0, 0, 0])),
        Ok(Pdu::FlowControl { status: FlowStatus::Wait, .. })
    ));
    assert!(matches!(
        decode(&frame(&[0x32, 0, 0])),
        Ok(Pdu::FlowControl { status: FlowStatus::Overflow, .. })
    ));
}

#[test]
fn decode_unknown_pci() {
    for nibble in 0x4u8..=0xF {
        for low in [0u8, 1, 7, 0xF] {
            let first = (nibble << 4) | low;
            for len in 1..=8 {
                let mut data = vec![0u8; len];
                data[0] = first;
                assert!(matches!(decode(&frame(&data)), Err(DecodeError::UnknownPci)));
            }
        }
    }
    // A flow status that does not exist.
    for low in 3u8..=0xF {
        assert!(matches!(decode(&frame(&[0x30 | low, 0, 0])), Err(DecodeError::UnknownPci)));
    }
}

#[test]
fn decode_truncated() {
    assert!(matches!(decode(&frame(&[])), Err(DecodeError::Truncated)));
    // A single frame that announces more than it holds.
    assert!(matches!(decode(&frame(&[0x03, 1, 2])), Err(DecodeError::Truncated)));
    assert!(matches!(decode(&frame(&[0x08, 1, 2, 3, 4, 5, 6, 7])), Err(DecodeError::Truncated)));
    assert!(matches!(decode(&frame(&[0x0F, 1, 2, 3, 4, 5, 6, 7])), Err(DecodeError::Truncated)));
    // A first frame of fewer than 8 bytes.
    assert!(matches!(decode(&frame(&[0x10, 0x14, 1, 2, 3, 4, 5])), Err(DecodeError::Truncated)));
    assert!(matches!(decode(&frame(&[0x10])), Err(DecodeError::Truncated)));
    // A flow control frame of fewer than 3 bytes.
    assert!(matches!(decode(&frame(&[0x30, 0])), Err(DecodeError::Truncated)));
    assert!(matches!(decode(&frame(&[0x3F])), Err(DecodeError::Truncated)));
}

#[test]
fn decode_undoes_encode() {
    for config in [plain(0x7E0), padded(0x7E0, 0xAA)] {
        let sf = Pdu::SingleFrame { length: 4, payload: vec![4, 3, 2, 1] };
        assert!(matches!(
            decode(&encode(&sf, &config)),
            Ok(Pdu::SingleFrame { length: 4, payload }) if payload == vec![4, 3, 2, 1]
        ));
        let ff = Pdu::FirstFrame { total_length: 300, payload_prefix: vec![1, 2, 3, 4, 5, 6] };
        assert!(matches!(
            decode(&encode(&ff, &config)),
            Ok(Pdu::FirstFrame { total_length: 300, payload_prefix })
                if payload_prefix == vec![1, 2, 3, 4, 5, 6]
        ));
        let cf = Pdu::ConsecutiveFrame { sequence_number: 9, payload_chunk: vec![1, 2, 3, 4, 5, 6, 7] };
        assert!(matches!(
            decode(&encode(&cf, &config)),
            Ok(Pdu::ConsecutiveFrame { sequence_number: 9, payload_chunk })
                if payload_chunk == vec![1, 2, 3, 4, 5, 6, 7]
        ));
        let fc = Pdu::FlowControl {
            status: FlowStatus::Wait,
            block_size: 200,
            separation_time_code: 0x7F,
        };
        assert!(matches!(
            decode(&encode(&fc, &config)),
            Ok(Pdu::FlowControl {
                status: FlowStatus::Wait,
                block_size: 200,
                separation_time_code: 0x7F
            })
        ));
    }
}

#[test]
fn padded_short_consecutive_frame_comes_back_with_its_padding() {
    let cf = Pdu::ConsecutiveFrame { sequence_number: 1, payload_chunk: vec![1, 2] };
    assert!(matches!(
        decode(&encode(&cf, &padded(1, 0xAA))),
        Ok(Pdu::ConsecutiveFrame { sequence_number: 1, payload_chunk })
            if payload_chunk == vec![1, 2, 0xAA, 0xAA, 0xAA, 0xAA, 0xAA]
    ));
    assert!(matches!(
        decode(&encode(&cf, &plain(1))),
        Ok(Pdu::ConsecutiveFrame { sequence_number: 1, payload_chunk })
            if payload_chunk == vec![1, 2]
    ));
}

#[test]
fn decode_error_becomes_transfer_error() {
    assert_eq!(TransferError::from(DecodeError::UnknownPci), TransferError::UnknownPci);
    assert_eq!(TransferError::from(DecodeError::Truncated), TransferError::Truncated);
}

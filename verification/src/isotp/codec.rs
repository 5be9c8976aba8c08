//! The frame codec: between a link frame and the protocol frame it carries.
//!
//! The upper nibble of byte 0 selects the kind: 0 a single frame, 1 a first
//! frame, 2 a consecutive frame, 3 a flow control frame.

use crate::isotp::config::TransferConfig;
use crate::isotp::error::DecodeError;
use crate::isotp::frame::{
    FlowStatus, LinkFrame, LinkFrameView, Pdu, PduView, FIRST_FRAME_PAYLOAD, MAX_FRAME_DATA,
};
use vstd::prelude::*;

verus! {

/// The upper nibble of a frame's first byte, which selects the frame kind.
pub open spec fn pci_kind(byte: u8) -> u8 {
    byte >> 4
}

/// The lower nibble of a frame's first byte.
pub open spec fn pci_low(byte: u8) -> u8 {
    byte & 0x0F
}

/// The length that the two leading bytes of a first frame announce.
pub open spec fn announced_length(byte0: u8, byte1: u8) -> u16 {
    ((pci_low(byte0) as u16) << 8) | (byte1 as u16)
}

/// The bytes of a protocol frame before any padding: the protocol control
/// information, followed by the payload.
pub open spec fn frame_body(pdu: PduView) -> Seq<u8> {
    match pdu {
        PduView::SingleFrame { length, payload } => seq![length] + payload,
        PduView::FirstFrame { total_length, payload_prefix } => seq![
            0x10u8 | ((total_length >> 8) as u8),
            (total_length & 0xFF) as u8,
        ] + payload_prefix,
        PduView::ConsecutiveFrame { sequence_number, payload_chunk } => seq![
            0x20u8 | sequence_number,
        ] + payload_chunk,
        PduView::FlowControl { status, block_size, separation_time_code } => seq![
            0x30u8 | status.spec_code(),
            block_size,
            separation_time_code,
        ],
    }
}

/// The least number of bytes that carries a protocol frame: its protocol
/// control bytes and its payload.
pub open spec fn minimum_length(pdu: PduView) -> nat {
    match pdu {
        PduView::SingleFrame { length, payload } => 1 + payload.len(),
        PduView::FirstFrame { total_length, payload_prefix } => 2 + payload_prefix.len(),
        PduView::ConsecutiveFrame { sequence_number, payload_chunk } => 1 + payload_chunk.len(),
        PduView::FlowControl { .. } => 3,
    }
}

/// `bytes`, filled up to 8 bytes with `config.padding_value` where padding
/// is in use and there are fewer.
pub open spec fn padded(bytes: Seq<u8>, config: TransferConfig) -> Seq<u8> {
    if config.use_padding && bytes.len() < MAX_FRAME_DATA {
        bytes + Seq::new((MAX_FRAME_DATA - bytes.len()) as nat, |i: int| config.padding_value)
    } else {
        bytes
    }
}

/// The link frame that carries `pdu` to the peer of `config`.
pub open spec fn spec_encode(pdu: PduView, config: TransferConfig) -> LinkFrameView {
    LinkFrameView { id: config.peer_id, data: padded(frame_body(pdu), config) }
}

/// The protocol frame that the data bytes `d` of a link frame carry.
pub open spec fn decode_bytes(d: Seq<u8>) -> Result<PduView, DecodeError> {
    if d.len() == 0 {
        Err(DecodeError::Truncated)
    } else if pci_kind(d[0]) == 0 {
        if d.len() < 1 + pci_low(d[0]) {
            Err(DecodeError::Truncated)
        } else {
            Ok(
                PduView::SingleFrame {
                    length: pci_low(d[0]),
                    payload: d.subrange(1, 1 + pci_low(d[0])),
                },
            )
        }
    } else if pci_kind(d[0]) == 1 {
        if d.len() < 2 + FIRST_FRAME_PAYLOAD {
            Err(DecodeError::Truncated)
        } else {
            Ok(
                PduView::FirstFrame {
                    total_length: announced_length(d[0], d[1]),
                    payload_prefix: d.subrange(2, 2 + FIRST_FRAME_PAYLOAD as int),
                },
            )
        }
    } else if pci_kind(d[0]) == 2 {
        Ok(
            PduView::ConsecutiveFrame {
                sequence_number: pci_low(d[0]),
                payload_chunk: d.subrange(1, d.len() as int),
            },
        )
    } else if pci_kind(d[0]) == 3 {
        if d.len() < 3 {
            Err(DecodeError::Truncated)
        } else if pci_low(d[0]) > 2 {
            Err(DecodeError::UnknownPci)
        } else {
            Ok(
                PduView::FlowControl {
                    status: if pci_low(d[0]) == 0 {
                        FlowStatus::ClearToSend
                    } else if pci_low(d[0]) == 1 {
                        FlowStatus::Wait
                    } else {
                        FlowStatus::Overflow
                    },
                    block_size: d[1],
                    separation_time_code: d[2],
                },
            )
        }
    } else {
        Err(DecodeError::UnknownPci)
    }
}

/// The protocol frame that `frame` carries.
pub open spec fn spec_decode(frame: LinkFrameView) -> Result<PduView, DecodeError> {
    decode_bytes(frame.data)
}

/// Both nibbles of a byte are at most 15, and the upper one is at most 3
/// exactly for the bytes below `0x40`.
proof fn lemma_nibbles(byte: u8)
    ensures
        pci_kind(byte) <= 15,
        pci_low(byte) <= 15,
        byte < 0x40 <==> pci_kind(byte) <= 3,
{
    assert(byte >> 4 <= 15 && byte & 0x0F <= 15 && (byte < 0x40 <==> byte >> 4 <= 3))
        by (bit_vector);
}

/// A first frame announces at most 4095 bytes.
proof fn lemma_announced_length(byte0: u8, byte1: u8)
    ensures
        announced_length(byte0, byte1) <= 4095,
{
    assert((((byte0 & 0x0F) as u16) << 8) | (byte1 as u16) <= 4095) by (bit_vector);
}

/// The first byte of a single frame names its kind and its length.
proof fn lemma_single_frame_pci(length: u8)
    requires
        length <= 7,
    ensures
        pci_kind(length) == 0,
        pci_low(length) == length,
{
    assert(length <= 7 ==> length >> 4 == 0 && length & 0x0F == length) by (bit_vector);
}

/// The two leading bytes of a first frame name its kind and the length
/// that it announces.
proof fn lemma_first_frame_pci(total_length: u16)
    requires
        total_length <= 4095,
    ensures
        total_length >> 8 <= 15,
        total_length & 0xFF <= 255,
        pci_kind(0x10u8 | ((total_length >> 8) as u8)) == 1,
        announced_length(0x10u8 | ((total_length >> 8) as u8), (total_length & 0xFF) as u8)
            == total_length,
{
    assert(total_length <= 4095 ==> total_length >> 8 <= 15 && total_length & 0xFF <= 255)
        by (bit_vector);
    let high: u8 = (total_length >> 8) as u8;
    let low: u8 = (total_length & 0xFF) as u8;
    assert(high == total_length >> 8);
    assert(low == total_length & 0xFF);
    assert((0x10u8 | high) >> 4 == 1) by (bit_vector)
        requires
            high <= 15,
    ;
    assert(((((0x10u8 | high) & 0x0F) as u16) << 8) | (low as u16) == total_length)
        by (bit_vector)
        requires
            total_length <= 4095,
            high == total_length >> 8,
            low == total_length & 0xFF,
    ;
}

/// The first byte of a consecutive frame names its kind and its sequence
/// number.
proof fn lemma_consecutive_frame_pci(sequence_number: u8)
    requires
        sequence_number <= 15,
    ensures
        pci_kind(0x20u8 | sequence_number) == 2,
        pci_low(0x20u8 | sequence_number) == sequence_number,
{
    assert(sequence_number <= 15 ==> (0x20u8 | sequence_number) >> 4 == 2 && (0x20u8
        | sequence_number) & 0x0F == sequence_number) by (bit_vector);
}

/// The first byte of a flow control frame names its kind and its status.
proof fn lemma_flow_control_pci(code: u8)
    requires
        code <= 2,
    ensures
        pci_kind(0x30u8 | code) == 3,
        pci_low(0x30u8 | code) == code,
{
    assert(code <= 2 ==> (0x30u8 | code) >> 4 == 3 && (0x30u8 | code) & 0x0F == code)
        by (bit_vector);
}

/// A protocol frame needs as many bytes as its body has, and never more
/// than a link frame holds.
pub proof fn lemma_minimum_length(pdu: PduView)
    requires
        pdu.wf(),
    ensures
        frame_body(pdu).len() == minimum_length(pdu),
        1 <= minimum_length(pdu) <= MAX_FRAME_DATA,
{
}

/// Padding: with padding in use every link frame has 8 bytes, of which
/// those behind the frame's body hold the padding value; without it the
/// link frame is the body, and has the least length that carries the
/// protocol frame.
pub proof fn lemma_padding(pdu: PduView, config: TransferConfig)
    requires
        pdu.wf(),
    ensures
        spec_encode(pdu, config).id == config.peer_id,
        config.wf() ==> spec_encode(pdu, config).wf(),
        config.use_padding ==> spec_encode(pdu, config).data.len() == MAX_FRAME_DATA,
        !config.use_padding ==> spec_encode(pdu, config).data == frame_body(pdu),
        !config.use_padding ==> spec_encode(pdu, config).data.len() == minimum_length(pdu),
        spec_encode(pdu, config).data.len() >= minimum_length(pdu),
        forall|i: int|
            0 <= i < minimum_length(pdu) ==> spec_encode(pdu, config).data[i] == frame_body(
                pdu,
            )[i],
        forall|i: int|
            minimum_length(pdu) <= i < spec_encode(pdu, config).data.len() ==> spec_encode(
                pdu,
                config,
            ).data[i] == config.padding_value,
{
    lemma_minimum_length(pdu);
}

/// What the receiver reads from the link frame that carries `pdu`: the
/// frame itself, except that the padding behind the payload of a
/// consecutive frame counts as payload.
pub open spec fn as_received(pdu: PduView, config: TransferConfig) -> PduView {
    match pdu {
        PduView::ConsecutiveFrame { sequence_number, payload_chunk } => {
            PduView::ConsecutiveFrame {
                sequence_number,
                payload_chunk: padded(frame_body(pdu), config).subrange(
                    1,
                    padded(frame_body(pdu), config).len() as int,
                ),
            }
        },
        _ => pdu,
    }
}

/// Decoding undoes encoding: the link frame that carries a protocol frame
/// is read back as that frame. Only a consecutive frame that is shorter
/// than 8 bytes and was padded comes back longer, with the padding behind
/// its payload.
pub proof fn lemma_decode_encode(pdu: PduView, config: TransferConfig)
    requires
        pdu.wf(),
    ensures
        spec_decode(spec_encode(pdu, config)) == Ok::<PduView, DecodeError>(
            as_received(pdu, config),
        ),
        as_received(pdu, config).wf(),
        !config.use_padding || minimum_length(pdu) == MAX_FRAME_DATA ==> as_received(pdu, config)
            == pdu,
        pdu matches PduView::ConsecutiveFrame { sequence_number, payload_chunk } ==> as_received(
            pdu,
            config,
        ) matches PduView::ConsecutiveFrame { sequence_number: sn, payload_chunk: chunk } && sn
            == sequence_number && payload_chunk.len() <= chunk.len() && chunk.subrange(
            0,
            payload_chunk.len() as int,
        ) == payload_chunk,
{
    lemma_padding(pdu, config);
    let body = frame_body(pdu);
    let d = spec_encode(pdu, config).data;
    assert(d[0] == body[0]);
    match pdu {
        PduView::SingleFrame { length, payload } => {
            lemma_single_frame_pci(length);
            assert(d.subrange(1, 1 + length) =~= payload);
        },
        PduView::FirstFrame { total_length, payload_prefix } => {
            lemma_first_frame_pci(total_length);
            assert(d[1] == body[1]);
            assert(d =~= body);
            assert(d.subrange(2, 8) =~= payload_prefix);
        },
        PduView::ConsecutiveFrame { sequence_number, payload_chunk } => {
            lemma_consecutive_frame_pci(sequence_number);
            let chunk = d.subrange(1, d.len() as int);
            assert(chunk.subrange(0, payload_chunk.len() as int) =~= payload_chunk);
            if !config.use_padding || minimum_length(pdu) == MAX_FRAME_DATA {
                assert(chunk =~= payload_chunk);
            }
        },
        PduView::FlowControl { status, block_size, separation_time_code } => {
            lemma_flow_control_pci(status.spec_code());
            assert(d[1] == body[1]);
            assert(d[2] == body[2]);
        },
    }
}

/// Whatever a link frame of at most 8 bytes decodes to is a protocol frame
/// with every field in range.
pub proof fn lemma_decoded_wf(frame: LinkFrameView)
    requires
        frame.wf(),
    ensures
        spec_decode(frame) matches Ok(pdu) ==> pdu.wf(),
{
    let d = frame.data;
    if d.len() > 0 {
        lemma_nibbles(d[0]);
        if d.len() > 1 {
            lemma_announced_length(d[0], d[1]);
        }
    }
}

/// Malformed input: a link frame whose first nibble is `0x4` through `0xF`
/// decodes to `UnknownPci`, and to nothing else.
pub proof fn lemma_unknown_pci(frame: LinkFrameView)
    requires
        frame.data.len() > 0,
        4 <= pci_kind(frame.data[0]),
    ensures
        spec_decode(frame) == Err::<PduView, DecodeError>(DecodeError::UnknownPci),
{
}

/// A link frame decodes to a protocol frame of the kind that its first
/// nibble names, and to no other.
pub proof fn lemma_decoded_kind(frame: LinkFrameView)
    ensures
        spec_decode(frame) matches Ok(pdu) ==> frame.data.len() > 0 && match pdu {
            PduView::SingleFrame { .. } => pci_kind(frame.data[0]) == 0,
            PduView::FirstFrame { .. } => pci_kind(frame.data[0]) == 1,
            PduView::ConsecutiveFrame { .. } => pci_kind(frame.data[0]) == 2,
            PduView::FlowControl { .. } => pci_kind(frame.data[0]) == 3,
        },
{
}

/// Encodes `pdu` as the link frame that carries it to the peer of `config`.
///
/// With padding in use the frame is filled up to 8 bytes with the padding
/// value; without it the frame has the least length that carries `pdu`.
pub fn encode(pdu: &Pdu, config: &TransferConfig) -> (frame: LinkFrame)
    requires
        pdu.wf(),
        config.wf(),
    ensures
        frame@ == spec_encode(pdu@, *config),
        frame@.wf(),
        frame@.id == config.peer_id,
        config.use_padding ==> frame@.data.len() == MAX_FRAME_DATA,
        !config.use_padding ==> frame@.data.len() == minimum_length(pdu@),
        forall|i: int|
            minimum_length(pdu@) <= i < frame@.data.len() ==> frame@.data[i]
                == config.padding_value,
        spec_decode(frame@) == Ok::<PduView, DecodeError>(as_received(pdu@, *config)),
{
    let mut data: Vec<u8> = Vec::new();
    match pdu {
        Pdu::SingleFrame { length, payload } => {
            data.push(*length);
            data.extend_from_slice(payload.as_slice());
        },
        Pdu::FirstFrame { total_length, payload_prefix } => {
            proof {
                lemma_first_frame_pci(*total_length);
            }
            data.push(0x10u8 | ((*total_length >> 8) as u8));
            data.push((*total_length & 0xFF) as u8);
            data.extend_from_slice(payload_prefix.as_slice());
        },
        Pdu::ConsecutiveFrame { sequence_number, payload_chunk } => {
            data.push(0x20u8 | *sequence_number);
            data.extend_from_slice(payload_chunk.as_slice());
        },
        Pdu::FlowControl { status, block_size, separation_time_code } => {
            data.push(0x30u8 | status.code());
            data.push(*block_size);
            data.push(*separation_time_code);
        },
    }
    assert(data@ =~= frame_body(pdu@));
    proof {
        lemma_padding(pdu@, *config);
        lemma_decode_encode(pdu@, *config);
    }
    if config.use_padding && data.len() < MAX_FRAME_DATA {
        data.resize(MAX_FRAME_DATA, config.padding_value);
    }
    assert(data@ =~= padded(frame_body(pdu@), *config));
    LinkFrame::new(config.peer_id, data).unwrap()
}

/// The bytes of `data` from index `from` up to, not including, index `to`.
pub fn copy_of_range(data: &[u8], from: usize, to: usize) -> (bytes: Vec<u8>)
    requires
        from <= to <= data@.len(),
    ensures
        bytes@ == data@.subrange(from as int, to as int),
{
    let mut bytes: Vec<u8> = Vec::new();
    bytes.extend_from_slice(vstd::slice::slice_subrange(data, from, to));
    assert(bytes@ =~= data@.subrange(from as int, to as int));
    bytes
}

/// Decodes the protocol frame that `frame` carries.
///
/// Fails with `Truncated` if the frame is empty or shorter than its kind
/// requires, and with `UnknownPci` if its first nibble names none of the
/// four kinds, or its first byte a flow status that does not exist.
pub fn decode(frame: &LinkFrame) -> (r: Result<Pdu, DecodeError>)
    ensures
        r is Ok <==> spec_decode(frame@) is Ok,
        r matches Ok(pdu) ==> Ok::<PduView, DecodeError>(pdu@) == spec_decode(frame@) && pdu.wf(),
        r matches Err(e) ==> Err::<PduView, DecodeError>(e) == spec_decode(frame@),
        frame@.data.len() > 0 && 4 <= pci_kind(frame@.data[0]) ==> r == Err::<Pdu, DecodeError>(
            DecodeError::UnknownPci,
        ),
{
    let data = frame.data().as_slice();
    proof {
        lemma_decoded_wf(frame@);
    }
    if data.len() == 0 {
        return Err(DecodeError::Truncated);
    }
    let first: u8 = data[0];
    let kind: u8 = first >> 4;
    let low: u8 = first & 0x0F;
    proof {
        lemma_nibbles(first);
    }
    if kind == 0 {
        if data.len() < 1 + low as usize {
            Err(DecodeError::Truncated)
        } else {
            Ok(Pdu::SingleFrame { length: low, payload: copy_of_range(data, 1, 1 + low as usize) })
        }
    } else if kind == 1 {
        if data.len() < 2 + FIRST_FRAME_PAYLOAD {
            Err(DecodeError::Truncated)
        } else {
            let total_length: u16 = ((low as u16) << 8) | (data[1] as u16);
            Ok(
                Pdu::FirstFrame {
                    total_length,
                    payload_prefix: copy_of_range(data, 2, 2 + FIRST_FRAME_PAYLOAD),
                },
            )
        }
    } else if kind == 2 {
        Ok(
            Pdu::ConsecutiveFrame {
                sequence_number: low,
                payload_chunk: copy_of_range(data, 1, data.len()),
            },
        )
    } else if kind == 3 {
        if data.len() < 3 {
            Err(DecodeError::Truncated)
        } else {
            match FlowStatus::from_code(low) {
                None => Err(DecodeError::UnknownPci),
                Some(status) => Ok(
                    Pdu::FlowControl { status, block_size: data[1], separation_time_code: data[2] },
                ),
            }
        }
    } else {
        Err(DecodeError::UnknownPci)
    }
}

} // verus!

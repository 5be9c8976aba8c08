//! How a payload is cut into protocol frames.
//!
//! A payload of at most 7 bytes travels in one single frame. A longer one
//! travels in a first frame, which announces the length and carries the
//! first 6 bytes, followed by consecutive frames of 7 bytes each, the last
//! one holding what is left.

use crate::isotp::codec::spec_encode;
use crate::isotp::config::TransferConfig;
use crate::isotp::frame::{
    LinkFrameView, PduView, FIRST_FRAME_PAYLOAD, MAX_CONSECUTIVE_PAYLOAD, MAX_SINGLE_PAYLOAD,
    MAX_TRANSFER_LENGTH,
};
use vstd::prelude::*;

verus! {

/// The sequence number of the consecutive frame with index `k`, counted
/// from zero: the numbers run `1, 2, ..., 15, 1, 2, ...` and skip zero.
pub open spec fn sequence_number_of(k: nat) -> u8 {
    (k % 15 + 1) as u8
}

/// The sequence number that follows `sequence_number`.
pub open spec fn spec_following_sequence_number(sequence_number: u8) -> u8 {
    if sequence_number >= 15 {
        1
    } else {
        (sequence_number + 1) as u8
    }
}

/// The sequence number that follows `sequence_number`: one more, and 1
/// after 15.
#[verifier::when_used_as_spec(spec_following_sequence_number)]
pub fn following_sequence_number(sequence_number: u8) -> (next: u8)
    ensures
        next == spec_following_sequence_number(sequence_number),
        1 <= next <= 15,
{
    if sequence_number >= 15 {
        1
    } else {
        sequence_number + 1
    }
}

/// How many consecutive frames a payload of `len` bytes needs.
pub open spec fn consecutive_count(len: nat) -> nat {
    if len <= MAX_SINGLE_PAYLOAD {
        0
    } else {
        ((len - FIRST_FRAME_PAYLOAD + MAX_CONSECUTIVE_PAYLOAD - 1) / (MAX_CONSECUTIVE_PAYLOAD
            as int)) as nat
    }
}

/// How many payload bytes have been sent once the first frame and `k`
/// consecutive frames are out, of a payload of `len` bytes.
pub open spec fn bytes_before(len: nat, k: nat) -> nat {
    if FIRST_FRAME_PAYLOAD + MAX_CONSECUTIVE_PAYLOAD * k <= len {
        (FIRST_FRAME_PAYLOAD + MAX_CONSECUTIVE_PAYLOAD * k) as nat
    } else {
        len
    }
}

/// The payload bytes that the consecutive frame with index `k` carries.
pub open spec fn chunk_of(payload: Seq<u8>, k: nat) -> Seq<u8> {
    payload.subrange(
        bytes_before(payload.len(), k) as int,
        bytes_before(payload.len(), k + 1) as int,
    )
}

/// The frame that opens the transfer of `payload`: a single frame with all
/// of it if it has at most 7 bytes, else a first frame with its length and
/// its first 6 bytes.
pub open spec fn first_pdu(payload: Seq<u8>) -> PduView {
    if payload.len() <= MAX_SINGLE_PAYLOAD {
        PduView::SingleFrame { length: payload.len() as u8, payload }
    } else {
        PduView::FirstFrame {
            total_length: payload.len() as u16,
            payload_prefix: payload.subrange(0, FIRST_FRAME_PAYLOAD as int),
        }
    }
}

/// The consecutive frame with index `k` of the transfer of `payload`.
pub open spec fn consecutive_pdu(payload: Seq<u8>, k: nat) -> PduView {
    PduView::ConsecutiveFrame {
        sequence_number: sequence_number_of(k),
        payload_chunk: chunk_of(payload, k),
    }
}

/// The frame with index `i` of the transfer of `payload`.
pub open spec fn pdu_at(payload: Seq<u8>, i: nat) -> PduView {
    if i == 0 {
        first_pdu(payload)
    } else {
        consecutive_pdu(payload, (i - 1) as nat)
    }
}

/// The protocol frames of the transfer of `payload`, in the order in which
/// they are sent.
pub open spec fn segment_pdus(payload: Seq<u8>) -> Seq<PduView> {
    Seq::new(1 + consecutive_count(payload.len()), |i: int| pdu_at(payload, i as nat))
}

/// The link frames of the transfer of `payload` to the peer of `config`, in
/// the order in which they are sent.
pub open spec fn spec_segment(payload: Seq<u8>, config: TransferConfig) -> Seq<LinkFrameView> {
    Seq::new(
        1 + consecutive_count(payload.len()),
        |i: int| spec_encode(pdu_at(payload, i as nat), config),
    )
}

/// Sequence numbering: the consecutive frames of a transfer carry the
/// numbers `1, 2, ..., 15, 1, 2, ...`. The first one carries 1, each
/// following one carries the number after its predecessor's, and none
/// carries 0.
pub proof fn lemma_sequence_numbers(payload: Seq<u8>, k: nat)
    requires
        k < consecutive_count(payload.len()),
    ensures
        segment_pdus(payload)[1 + k as int] == consecutive_pdu(payload, k),
        segment_pdus(payload)[1 + k as int] matches PduView::ConsecutiveFrame {
            sequence_number,
            ..
        } && sequence_number == k % 15 + 1,
        1 <= sequence_number_of(k) <= 15,
        sequence_number_of(0) == 1,
        sequence_number_of(k + 1) == spec_following_sequence_number(sequence_number_of(k)),
        sequence_number_of(k + 1) == (if sequence_number_of(k) == 15 {
            1
        } else {
            sequence_number_of(k) + 1
        }),
{
}

/// The frames of a transfer carry the payload piece by piece: the first
/// frame's 6 bytes and the chunks of the consecutive frames, put one after
/// the other, are the payload; every chunk but the last has 7 bytes, and
/// the last has between 1 and 7.
pub proof fn lemma_chunks(payload: Seq<u8>, k: nat)
    requires
        MAX_SINGLE_PAYLOAD < payload.len(),
        k < consecutive_count(payload.len()),
    ensures
        payload.subrange(0, bytes_before(payload.len(), k) as int) + chunk_of(payload, k)
            == payload.subrange(0, bytes_before(payload.len(), k + 1) as int),
        bytes_before(payload.len(), k) == FIRST_FRAME_PAYLOAD + MAX_CONSECUTIVE_PAYLOAD * k,
        bytes_before(payload.len(), k) < payload.len(),
        1 <= chunk_of(payload, k).len() <= MAX_CONSECUTIVE_PAYLOAD,
        k + 1 < consecutive_count(payload.len()) ==> chunk_of(payload, k).len()
            == MAX_CONSECUTIVE_PAYLOAD,
        k + 1 == consecutive_count(payload.len()) <==> bytes_before(payload.len(), k + 1)
            == payload.len(),
{
    let len = payload.len();
    assert(payload.subrange(0, bytes_before(len, k) as int) + chunk_of(payload, k)
        =~= payload.subrange(0, bytes_before(len, k + 1) as int));
}

/// Every frame of a transfer of at most 4095 bytes has its fields in range.
pub proof fn lemma_segment_wf(payload: Seq<u8>, i: nat)
    requires
        payload.len() <= MAX_TRANSFER_LENGTH,
        i <= consecutive_count(payload.len()),
    ensures
        pdu_at(payload, i).wf(),
{
    if i > 0 {
        lemma_chunks(payload, (i - 1) as nat);
    }
}

/// Counting the consecutive frames that are out: where the first frame's 6
/// bytes and a whole number of 7-byte chunks of a payload of more than 7
/// bytes have been sent, and bytes are left, the chunks sent are the
/// consecutive frames sent, another frame is due, and it carries the next
/// up to 7 bytes.
pub proof fn lemma_count_step(sent: nat, len: nat)
    requires
        MAX_SINGLE_PAYLOAD < len,
        FIRST_FRAME_PAYLOAD <= sent < len,
        (sent - FIRST_FRAME_PAYLOAD) % (MAX_CONSECUTIVE_PAYLOAD as int) == 0,
    ensures
        ({
            let k = consecutive_count(sent);
            let next = if len - sent < MAX_CONSECUTIVE_PAYLOAD {
                len
            } else {
                (sent + MAX_CONSECUTIVE_PAYLOAD) as nat
            };
            &&& sent == FIRST_FRAME_PAYLOAD + MAX_CONSECUTIVE_PAYLOAD * k
            &&& k < consecutive_count(len)
            &&& bytes_before(len, k) == sent
            &&& bytes_before(len, k + 1) == next
            &&& consecutive_count(next) == k + 1
            &&& sequence_number_of(k + 1) == spec_following_sequence_number(sequence_number_of(k))
        }),
{
}

} // verus!

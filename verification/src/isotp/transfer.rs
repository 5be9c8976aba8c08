//! A whole transfer at once: from a payload to its link frames, and from
//! link frames back to the payload.
//!
//! [`segment`] runs the send path against a peer that clears everything in
//! one block; [`reassemble`] runs the receive path over the frames. What
//! the one produces, the other puts together again.

use crate::isotp::codec::{lemma_decode_encode, spec_decode, spec_encode};
use crate::isotp::config::{FlowControlPolicy, TransferConfig};
use crate::isotp::error::{DecodeError, TransferError};
use crate::isotp::frame::{
    FlowStatus, LinkFrame, LinkFrameView, PduView, MAX_SINGLE_PAYLOAD, MAX_TRANSFER_LENGTH,
};
use crate::isotp::reassembler::{
    Reassembler, ReceiveEvent, ReceiveEventView, ReceiveSessionView, ReceiveState,
};
use crate::isotp::segmentation::{
    bytes_before, chunk_of, consecutive_count, consecutive_pdu, first_pdu, lemma_chunks,
    lemma_count_step, lemma_segment_wf, pdu_at, sequence_number_of,
    spec_following_sequence_number, spec_segment,
};
use crate::isotp::segmenter::{Segmenter, SendState};
use crate::isotp::timing::TimerConfig;
use vstd::prelude::*;

verus! {

/// What each of `frames` holds.
pub open spec fn frame_views(frames: Seq<LinkFrame>) -> Seq<LinkFrameView> {
    Seq::new(frames.len(), |i: int| frames[i]@)
}

/// The receive session, and the event of the last frame, after a fresh
/// receiver has taken `frames` one after the other, without delay.
pub open spec fn receive_all(
    frames: Seq<LinkFrameView>,
    config: TransferConfig,
    timers: TimerConfig,
    capacity: usize,
) -> (ReceiveSessionView, ReceiveEventView)
    decreases frames.len(),
{
    if frames.len() == 0 {
        (ReceiveSessionView::idle(), ReceiveEventView::Nothing)
    } else {
        receive_all(frames.drop_last(), config, timers, capacity).0.after_frame(
            frames.last(),
            config,
            timers,
            capacity,
            0,
        )
    }
}

/// The configuration of the receiver that [`reassemble`] runs: it asks for
/// no padding, no block size limit and no separation time.
pub open spec fn plain_config() -> TransferConfig {
    TransferConfig {
        peer_id: 0,
        use_padding: false,
        padding_value: 0,
        block_size: 0,
        separation_time: 0,
        flow_control_policy: FlowControlPolicy { max_wait_frames: 0 },
    }
}

/// The payload that the last of `frames` completes, if it completes one,
/// for a receiver with room for `capacity` bytes.
pub open spec fn spec_reassemble(frames: Seq<LinkFrameView>, capacity: usize) -> Option<Seq<u8>> {
    match receive_all(frames, plain_config(), TimerConfig::iso_default(), capacity).1 {
        ReceiveEventView::Delivered(payload) => Some(payload),
        _ => None,
    }
}

/// Cuts `payload` into the link frames that carry it to the peer of
/// `config`, in the order in which they are sent: one single frame for up
/// to 7 bytes, else a first frame and the consecutive frames behind it.
///
/// A payload of more than 4095 bytes is refused with `LengthOutOfRange`.
pub fn segment(payload: &[u8], config: TransferConfig) -> (r: Result<Vec<LinkFrame>, TransferError>)
    requires
        config.wf(),
    ensures
        r is Ok <==> payload@.len() <= MAX_TRANSFER_LENGTH,
        r matches Ok(frames) ==> frame_views(frames@) == spec_segment(payload@, config),
        r matches Err(e) ==> e == TransferError::LengthOutOfRange,
{
    if payload.len() > MAX_TRANSFER_LENGTH {
        return Err(TransferError::LengthOutOfRange);
    }
    let mut owned: Vec<u8> = Vec::new();
    owned.extend_from_slice(payload);
    assert(owned@ =~= payload@);
    let mut segmenter = Segmenter::new(config, TimerConfig::default());
    let first = match segmenter.start(owned, config, 0) {
        Ok(frame) => frame,
        Err(e) => {
            return Err(e);
        },
    };
    let mut frames: Vec<LinkFrame> = Vec::new();
    frames.push(first);
    segmenter.on_flow_control(FlowStatus::ClearToSend, 0, 0, 0);
    while segmenter.session.state == SendState::SendingBlock
        invariant
            segmenter.wf(),
            segmenter.config == config,
            segmenter.payload@ == payload@,
            segmenter.session.state == SendState::SendingBlock || segmenter.session.state
                == SendState::Complete,
            segmenter.session.block_size == 0,
            segmenter.session.separation_us == 0,
            segmenter.session.next_send_at == 0,
            frames@.len() == segmenter.session.frames_emitted(),
            frames@.len() <= spec_segment(payload@, config).len(),
            forall|i: int|
                0 <= i < frames@.len() ==> (#[trigger] frames@[i])@ == spec_segment(
                    payload@,
                    config,
                )[i],
        decreases segmenter.session.total_length - segmenter.session.bytes_sent,
    {
        proof {
            lemma_count_step(segmenter.session.bytes_sent as nat, payload@.len());
        }
        match segmenter.poll(0) {
            Some(frame) => {
                frames.push(frame);
            },
            None => {},
        }
    }
    assert(frame_views(frames@) =~= spec_segment(payload@, config));
    Ok(frames)
}

/// Puts `frames` together again: runs a fresh receiver with room for
/// `capacity` bytes over them, one after the other, and returns the
/// payload that the last frame completes. `None` if the last frame
/// completes no payload.
pub fn reassemble(frames: &[LinkFrame], capacity: usize) -> (payload: Option<Vec<u8>>)
    ensures
        payload is Some <==> spec_reassemble(frame_views(frames@), capacity) is Some,
        payload matches Some(bytes) ==> Some(bytes@) == spec_reassemble(
            frame_views(frames@),
            capacity,
        ),
{
    let config = TransferConfig {
        peer_id: 0,
        use_padding: false,
        padding_value: 0,
        block_size: 0,
        separation_time: 0,
        flow_control_policy: FlowControlPolicy { max_wait_frames: 0 },
    };
    let mut reassembler = Reassembler::new(config, TimerConfig::default(), capacity);
    let mut last = ReceiveEvent::Nothing;
    let ghost views = frame_views(frames@);
    let mut i: usize = 0;
    while i < frames.len()
        invariant
            i <= frames.len(),
            views == frame_views(frames@),
            reassembler.wf(),
            reassembler.config == plain_config(),
            reassembler.timers == TimerConfig::iso_default(),
            reassembler.capacity == capacity,
            (reassembler.session@, last@) == receive_all(
                views.take(i as int),
                plain_config(),
                TimerConfig::iso_default(),
                capacity,
            ),
        decreases frames.len() - i,
    {
        last = reassembler.on_frame(&frames[i], 0);
        proof {
            assert(views.take(i + 1).drop_last() =~= views.take(i as int));
            assert(views.take(i + 1).last() == frames@[i as int]@);
        }
        i = i + 1;
    }
    assert(views.take(i as int) =~= views);
    match last {
        ReceiveEvent::Delivered(payload) => Some(payload),
        _ => None,
    }
}

/// Where a receiver stands that took the first frame of `payload` and `k`
/// of its consecutive frames, without delay: it holds the bytes that those
/// frames carried and expects the number of the next one.
pub open spec fn receiving(session: ReceiveSessionView, payload: Seq<u8>, k: nat) -> bool {
    &&& session.state == ReceiveState::ReceivingBlock
    &&& session.expected_total_length == payload.len()
    &&& session.bytes_received == bytes_before(payload.len(), k)
    &&& session.reassembly_buffer == payload.subrange(0, bytes_before(payload.len(), k) as int)
    &&& session.expected_sequence_number == sequence_number_of(k)
}

/// One step of a transfer on the receiving side: a receiver that holds
/// what the first frame and `k` consecutive frames carried takes the next
/// consecutive frame, and holds what `k + 1` of them carried, or delivers
/// the payload if that was the last.
proof fn lemma_receive_step(
    before: ReceiveSessionView,
    payload: Seq<u8>,
    sender: TransferConfig,
    receiver: TransferConfig,
    timers: TimerConfig,
    capacity: usize,
    k: nat,
)
    requires
        MAX_SINGLE_PAYLOAD < payload.len() <= MAX_TRANSFER_LENGTH,
        k < consecutive_count(payload.len()),
        before.wf(receiver, capacity),
        receiving(before, payload, k),
    ensures
        ({
            let (session, event) = before.after_frame(
                spec_encode(consecutive_pdu(payload, k), sender),
                receiver,
                timers,
                capacity,
                0,
            );
            &&& session.wf(receiver, capacity)
            &&& k + 1 < consecutive_count(payload.len()) ==> receiving(session, payload, k + 1)
            &&& k + 1 == consecutive_count(payload.len()) ==> event == ReceiveEventView::Delivered(
                payload,
            ) && session.state == ReceiveState::Complete
        }),
{
    let pdu = consecutive_pdu(payload, k);
    lemma_segment_wf(payload, 1 + k);
    lemma_decode_encode(pdu, sender);
    lemma_chunks(payload, k);
    let chunk = chunk_received(payload, sender, k);
    let sent = chunk_of(payload, k);
    assert(spec_decode(spec_encode(pdu, sender)) == Ok::<PduView, DecodeError>(
        PduView::ConsecutiveFrame { sequence_number: sequence_number_of(k), payload_chunk: chunk },
    ));
    assert(sent.len() <= chunk.len());
    assert(chunk.subrange(0, sent.len() as int) == sent);
    if k + 1 < consecutive_count(payload.len()) {
        assert(sent.len() == 7);
        assert(chunk.len() <= 7);
    }
    let accepted = before.accepted_len(chunk.len());
    assert(accepted == sent.len());
    let buffer = before.reassembly_buffer + chunk.subrange(0, accepted);
    assert(buffer == payload.subrange(0, bytes_before(payload.len(), k + 1) as int));
    assert(payload.subrange(0, payload.len() as int) =~= payload);
    assert(sequence_number_of(k + 1) == spec_following_sequence_number(sequence_number_of(k)));
    assert(!before.deadline.spec_has_expired(0));
}

/// A receiver that takes the first `1 + k` frames of a transfer holds the
/// bytes that they carried; with the last frame it delivers the payload.
proof fn lemma_receive_prefix(
    payload: Seq<u8>,
    sender: TransferConfig,
    receiver: TransferConfig,
    timers: TimerConfig,
    capacity: usize,
    k: nat,
)
    requires
        MAX_SINGLE_PAYLOAD < payload.len() <= MAX_TRANSFER_LENGTH,
        payload.len() <= capacity,
        k <= consecutive_count(payload.len()),
    ensures
        ({
            let (session, event) = receive_all(
                spec_segment(payload, sender).take(1 + k as int),
                receiver,
                timers,
                capacity,
            );
            &&& session.wf(receiver, capacity)
            &&& k < consecutive_count(payload.len()) ==> receiving(session, payload, k)
            &&& k == consecutive_count(payload.len()) ==> event == ReceiveEventView::Delivered(
                payload,
            ) && session.state == ReceiveState::Complete
        }),
    decreases k,
{
    let frames = spec_segment(payload, sender);
    let taken = frames.take(1 + k as int);
    assert(taken.last() == spec_encode(pdu_at(payload, k), sender));
    if k == 0 {
        lemma_segment_wf(payload, 0);
        lemma_decode_encode(first_pdu(payload), sender);
        lemma_chunks(payload, 0);
        assert(taken.drop_last() =~= Seq::<LinkFrameView>::empty());
        assert(receive_all(taken.drop_last(), receiver, timers, capacity).0
            == ReceiveSessionView::idle());
    } else {
        let j = (k - 1) as nat;
        lemma_receive_prefix(payload, sender, receiver, timers, capacity, j);
        assert(taken.drop_last() =~= frames.take(1 + j as int));
        let before = receive_all(frames.take(1 + j as int), receiver, timers, capacity).0;
        lemma_receive_step(before, payload, sender, receiver, timers, capacity, j);
    }
}

/// The chunk that the receiver reads from the consecutive frame with index
/// `k` of the transfer of `payload`.
pub open spec fn chunk_received(payload: Seq<u8>, sender: TransferConfig, k: nat) -> Seq<u8> {
    match spec_decode(spec_encode(consecutive_pdu(payload, k), sender)) {
        Ok(PduView::ConsecutiveFrame { sequence_number, payload_chunk }) => payload_chunk,
        _ => Seq::empty(),
    }
}

/// Round trip: the frames into which a payload of at most 4095 bytes is
/// cut are put together again to that payload, by every receiver that has
/// room for it, whatever the padding of the sender and whatever block size
/// the receiver asks for. A payload of at most 7 bytes needs no room.
pub proof fn lemma_round_trip(
    payload: Seq<u8>,
    sender: TransferConfig,
    receiver: TransferConfig,
    timers: TimerConfig,
    capacity: usize,
)
    requires
        payload.len() <= MAX_TRANSFER_LENGTH,
        payload.len() <= MAX_SINGLE_PAYLOAD || payload.len() <= capacity,
    ensures
        receive_all(spec_segment(payload, sender), receiver, timers, capacity).1
            == ReceiveEventView::Delivered(payload),
        spec_reassemble(spec_segment(payload, sender), capacity) == Some(payload),
{
    let frames = spec_segment(payload, sender);
    if payload.len() <= MAX_SINGLE_PAYLOAD {
        lemma_segment_wf(payload, 0);
        lemma_decode_encode(first_pdu(payload), sender);
        assert(frames.drop_last() =~= Seq::<LinkFrameView>::empty());
        assert(frames.last() == spec_encode(first_pdu(payload), sender));
        assert(receive_all(frames.drop_last(), receiver, timers, capacity).0
            == ReceiveSessionView::idle());
        assert(receive_all(
            frames.drop_last(),
            plain_config(),
            TimerConfig::iso_default(),
            capacity,
        ).0 == ReceiveSessionView::idle());
    } else {
        let n = consecutive_count(payload.len());
        assert(frames.take(1 + n as int) =~= frames);
        lemma_receive_prefix(payload, sender, receiver, timers, capacity, n);
        lemma_receive_prefix(
            payload,
            sender,
            plain_config(),
            TimerConfig::iso_default(),
            capacity,
            n,
        );
    }
}

} // verus!

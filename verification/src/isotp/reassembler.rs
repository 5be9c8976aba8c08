//! The receive path: one inbound session that puts a first frame and the
//! consecutive frames behind it together again, and answers with flow
//! control frames.
//!
//! The session never transmits. Each step returns a [`ReceiveEvent`] that
//! tells the caller what to transmit, what to deliver, or what failed.

use crate::isotp::codec::{decode, encode, lemma_decode_encode, spec_decode, spec_encode};
use crate::isotp::config::TransferConfig;
use crate::isotp::error::{DecodeError, TransferError};
use crate::isotp::frame::{
    FlowStatus, LinkFrame, LinkFrameView, Pdu, PduView, FIRST_FRAME_PAYLOAD,
    MAX_CONSECUTIVE_PAYLOAD, MAX_SINGLE_PAYLOAD, MAX_TRANSFER_LENGTH,
};
use crate::isotp::segmentation::{following_sequence_number, spec_following_sequence_number};
use crate::isotp::timing::{spec_arm, Deadline, Timer, TimerConfig};
use vstd::prelude::*;

verus! {

/// The receive capacity of a link that was given no other: 1024 bytes.
pub const DEFAULT_RECEIVE_CAPACITY: usize = 1024;

/// Where a receive session stands.
#[derive(Clone, Copy, Debug, PartialEq, Eq, Structural)]
pub enum ReceiveState {
    /// No transfer is in progress.
    Idle,
    /// A first frame was accepted; consecutive frames are awaited.
    ReceivingBlock,
    /// The last multi-frame transfer was received in full.
    Complete,
    /// The last transfer failed or was given up.
    Aborted,
}

/// What a receive session holds, with its buffer as a sequence of bytes.
pub struct ReceiveSessionView {
    pub expected_total_length: u16,
    pub bytes_received: u16,
    pub expected_sequence_number: u8,
    pub reassembly_buffer: Seq<u8>,
    pub deadline: Deadline,
    pub frames_received_in_block: u8,
    pub state: ReceiveState,
    pub error: Option<TransferError>,
}

/// The state of one inbound transfer.
#[derive(Debug)]
pub struct ReceiveSession {
    /// The length that the first frame announced.
    pub expected_total_length: u16,
    /// How many payload bytes have arrived.
    pub bytes_received: u16,
    /// The sequence number that the next consecutive frame must carry: 1
    /// to 15, and 1 again after 15.
    pub expected_sequence_number: u8,
    /// The payload bytes that have arrived, in order.
    pub reassembly_buffer: Vec<u8>,
    /// Until when the next consecutive frame may arrive.
    pub deadline: Deadline,
    /// How many consecutive frames arrived since the last flow control
    /// frame went out. Not counted where the block size is zero.
    pub frames_received_in_block: u8,
    pub state: ReceiveState,
    /// Why the session was aborted, if it failed.
    pub error: Option<TransferError>,
}

impl View for ReceiveSession {
    type V = ReceiveSessionView;

    open spec fn view(&self) -> ReceiveSessionView {
        ReceiveSessionView {
            expected_total_length: self.expected_total_length,
            bytes_received: self.bytes_received,
            expected_sequence_number: self.expected_sequence_number,
            reassembly_buffer: self.reassembly_buffer@,
            deadline: self.deadline,
            frames_received_in_block: self.frames_received_in_block,
            state: self.state,
            error: self.error,
        }
    }
}

/// What a step of the receive path asks of the caller, with frames and
/// payloads as sequences of bytes.
pub enum ReceiveEventView {
    Nothing,
    FlowControl(LinkFrameView),
    Rejected(LinkFrameView),
    Delivered(Seq<u8>),
    Failed(TransferError),
}

/// What a step of the receive path asks of the caller.
#[derive(Debug)]
pub enum ReceiveEvent {
    /// Nothing to do.
    Nothing,
    /// Transmit this flow control frame: the sender may go on.
    FlowControl(LinkFrame),
    /// Transmit this flow control frame: the announced transfer does not
    /// fit the receive capacity and was refused.
    Rejected(LinkFrame),
    /// A payload was received in full; here it is.
    Delivered(Vec<u8>),
    /// The frame was malformed, or the transfer in progress failed.
    Failed(TransferError),
}

impl View for ReceiveEvent {
    type V = ReceiveEventView;

    open spec fn view(&self) -> ReceiveEventView {
        match *self {
            ReceiveEvent::Nothing => ReceiveEventView::Nothing,
            ReceiveEvent::FlowControl(frame) => ReceiveEventView::FlowControl(frame@),
            ReceiveEvent::Rejected(frame) => ReceiveEventView::Rejected(frame@),
            ReceiveEvent::Delivered(payload) => ReceiveEventView::Delivered(payload@),
            ReceiveEvent::Failed(error) => ReceiveEventView::Failed(error),
        }
    }
}

impl ReceiveEventView {
    /// The failure that the event reports, if it reports one: a refused
    /// transfer counts as `Overflow`.
    pub open spec fn error(self) -> Option<TransferError> {
        match self {
            ReceiveEventView::Rejected(_) => Some(TransferError::Overflow),
            ReceiveEventView::Failed(error) => Some(error),
            _ => None,
        }
    }
}

impl ReceiveEvent {
    /// The failure that the event reports, if it reports one: a refused
    /// transfer counts as `Overflow`.
    pub fn error(&self) -> (error: Option<TransferError>)
        ensures
            error == self@.error(),
    {
        match self {
            ReceiveEvent::Rejected(_) => Some(TransferError::Overflow),
            ReceiveEvent::Failed(error) => Some(*error),
            _ => None,
        }
    }
}

/// The flow control frame with which the receiver of `config` answers:
/// `status`, with the block size and separation time that it advertises.
pub open spec fn flow_control_pdu(status: FlowStatus, config: TransferConfig) -> PduView {
    PduView::FlowControl {
        status,
        block_size: config.block_size,
        separation_time_code: config.separation_time,
    }
}

impl ReceiveSessionView {
    /// A session without a transfer.
    pub open spec fn idle() -> ReceiveSessionView {
        ReceiveSessionView {
            expected_total_length: 0,
            bytes_received: 0,
            expected_sequence_number: 1,
            reassembly_buffer: Seq::empty(),
            deadline: Deadline { timer: Timer::NCr, expires_at: 0 },
            frames_received_in_block: 0,
            state: ReceiveState::Idle,
            error: None,
        }
    }

    /// The session fits a receiver of `config` with room for `capacity`
    /// bytes.
    ///
    /// While a transfer is in progress, the buffer holds the bytes that
    /// have arrived, which are at least the first frame's 6 and fewer than
    /// announced, and the announced length fits the capacity. Outside a
    /// transfer the buffer is empty.
    pub open spec fn wf(self, config: TransferConfig, capacity: usize) -> bool {
        match self.state {
            ReceiveState::Idle => self == ReceiveSessionView::idle(),
            ReceiveState::ReceivingBlock => {
                &&& MAX_SINGLE_PAYLOAD < self.expected_total_length <= MAX_TRANSFER_LENGTH
                &&& self.expected_total_length <= capacity
                &&& self.reassembly_buffer.len() == self.bytes_received
                &&& FIRST_FRAME_PAYLOAD <= self.bytes_received < self.expected_total_length
                &&& 1 <= self.expected_sequence_number <= 15
                &&& self.deadline.timer == Timer::NCr
                &&& config.block_size == 0 ==> self.frames_received_in_block == 0
                &&& config.block_size != 0 ==> self.frames_received_in_block < config.block_size
            },
            ReceiveState::Complete | ReceiveState::Aborted => self.reassembly_buffer.len() == 0,
        }
    }

    /// The session with its transfer given up for `error`, and the partial
    /// payload discarded.
    pub open spec fn failed(self, error: TransferError) -> ReceiveSessionView {
        ReceiveSessionView {
            state: ReceiveState::Aborted,
            reassembly_buffer: Seq::empty(),
            error: Some(error),
            ..self
        }
    }

    /// The session that a first frame opens at time `now`.
    pub open spec fn opened(
        total_length: u16,
        payload_prefix: Seq<u8>,
        timers: TimerConfig,
        now: u64,
    ) -> ReceiveSessionView {
        ReceiveSessionView {
            expected_total_length: total_length,
            bytes_received: FIRST_FRAME_PAYLOAD as u16,
            expected_sequence_number: 1,
            reassembly_buffer: payload_prefix,
            deadline: spec_arm(timers, Timer::NCr, now),
            frames_received_in_block: 0,
            state: ReceiveState::ReceivingBlock,
            error: None,
        }
    }

    /// How many bytes of a chunk of `chunk_len` bytes belong to the
    /// payload: all of them, or as many as are still missing.
    pub open spec fn accepted_len(self, chunk_len: nat) -> int {
        if chunk_len <= self.expected_total_length - self.bytes_received {
            chunk_len as int
        } else {
            self.expected_total_length - self.bytes_received
        }
    }

    /// The session and the event after a first frame that arrived at time
    /// `now`.
    ///
    /// A first frame that announces at most 7 bytes announces no
    /// multi-frame transfer and is passed over. One that announces more
    /// than the capacity is refused: the session goes back to idle, with
    /// nothing written to the buffer, and the answer is flow control
    /// `Overflow`. Any other opens a new session, in place of one in
    /// progress, and the answer is flow control `ClearToSend`.
    pub open spec fn after_first_frame(
        self,
        total_length: u16,
        payload_prefix: Seq<u8>,
        config: TransferConfig,
        timers: TimerConfig,
        capacity: usize,
        now: u64,
    ) -> (ReceiveSessionView, ReceiveEventView) {
        if total_length <= MAX_SINGLE_PAYLOAD {
            (self, ReceiveEventView::Nothing)
        } else if total_length > capacity {
            (
                ReceiveSessionView::idle(),
                ReceiveEventView::Rejected(
                    spec_encode(flow_control_pdu(FlowStatus::Overflow, config), config),
                ),
            )
        } else {
            (
                ReceiveSessionView::opened(total_length, payload_prefix, timers, now),
                ReceiveEventView::FlowControl(
                    spec_encode(flow_control_pdu(FlowStatus::ClearToSend, config), config),
                ),
            )
        }
    }

    /// The session and the event after a consecutive frame that arrived at
    /// time `now`.
    ///
    /// Outside a transfer the frame is passed over. One that comes after
    /// the timer N_Cr ran out, or carries another sequence number than the
    /// expected one, aborts the session. Any other adds its chunk to the
    /// buffer, as far as bytes are still missing, and starts the timer
    /// again. With the last byte the payload is delivered; with a block
    /// that is full by the receiver's own block size the answer is flow
    /// control `ClearToSend`.
    pub open spec fn after_consecutive_frame(
        self,
        sequence_number: u8,
        payload_chunk: Seq<u8>,
        config: TransferConfig,
        timers: TimerConfig,
        now: u64,
    ) -> (ReceiveSessionView, ReceiveEventView) {
        if self.state != ReceiveState::ReceivingBlock {
            (self, ReceiveEventView::Nothing)
        } else if self.deadline.spec_has_expired(now) {
            (
                self.failed(TransferError::Timeout { timer: Timer::NCr }),
                ReceiveEventView::Failed(TransferError::Timeout { timer: Timer::NCr }),
            )
        } else if sequence_number != self.expected_sequence_number {
            (
                self.failed(TransferError::UnexpectedSequenceNumber),
                ReceiveEventView::Failed(TransferError::UnexpectedSequenceNumber),
            )
        } else {
            let buffer = self.reassembly_buffer + payload_chunk.subrange(
                0,
                self.accepted_len(payload_chunk.len()),
            );
            let received = ReceiveSessionView {
                bytes_received: (self.bytes_received + self.accepted_len(
                    payload_chunk.len(),
                )) as u16,
                expected_sequence_number: spec_following_sequence_number(
                    self.expected_sequence_number,
                ),
                reassembly_buffer: buffer,
                deadline: spec_arm(timers, Timer::NCr, now),
                ..self
            };
            if received.bytes_received == self.expected_total_length {
                (
                    ReceiveSessionView {
                        state: ReceiveState::Complete,
                        reassembly_buffer: Seq::empty(),
                        ..received
                    },
                    ReceiveEventView::Delivered(buffer),
                )
            } else if config.block_size == 0 {
                (received, ReceiveEventView::Nothing)
            } else if self.frames_received_in_block + 1 >= config.block_size {
                (
                    ReceiveSessionView { frames_received_in_block: 0, ..received },
                    ReceiveEventView::FlowControl(
                        spec_encode(flow_control_pdu(FlowStatus::ClearToSend, config), config),
                    ),
                )
            } else {
                (
                    ReceiveSessionView {
                        frames_received_in_block: (self.frames_received_in_block + 1) as u8,
                        ..received
                    },
                    ReceiveEventView::Nothing,
                )
            }
        }
    }

    /// The session and the event after the protocol frame `pdu`, which
    /// arrived at time `now`.
    ///
    /// A single frame is a whole transfer: its payload is delivered at
    /// once, and the session is idle, whatever it held. A flow control
    /// frame belongs to the send path and is passed over.
    pub open spec fn after_pdu(
        self,
        pdu: PduView,
        config: TransferConfig,
        timers: TimerConfig,
        capacity: usize,
        now: u64,
    ) -> (ReceiveSessionView, ReceiveEventView) {
        match pdu {
            PduView::SingleFrame { length, payload } => (
                ReceiveSessionView::idle(),
                ReceiveEventView::Delivered(payload),
            ),
            PduView::FirstFrame { total_length, payload_prefix } => self.after_first_frame(
                total_length,
                payload_prefix,
                config,
                timers,
                capacity,
                now,
            ),
            PduView::ConsecutiveFrame {
                sequence_number,
                payload_chunk,
            } => self.after_consecutive_frame(sequence_number, payload_chunk, config, timers, now),
            PduView::FlowControl { .. } => (self, ReceiveEventView::Nothing),
        }
    }

    /// The session and the event after the link frame `frame`, which
    /// arrived at time `now`. A frame that does not decode is reported and
    /// leaves the session as it is.
    pub open spec fn after_frame(
        self,
        frame: LinkFrameView,
        config: TransferConfig,
        timers: TimerConfig,
        capacity: usize,
        now: u64,
    ) -> (ReceiveSessionView, ReceiveEventView) {
        match spec_decode(frame) {
            Ok(pdu) => self.after_pdu(pdu, config, timers, capacity, now),
            Err(e) => (self, ReceiveEventView::Failed(e.as_transfer_error())),
        }
    }

    /// The session and the event after a poll at time `now`: a transfer in
    /// progress is aborted with `Timeout { timer: NCr }` once the timer
    /// N_Cr has run out, and the partial payload is discarded.
    pub open spec fn after_poll(self, now: u64) -> (ReceiveSessionView, ReceiveEventView) {
        if self.state == ReceiveState::ReceivingBlock && self.deadline.spec_has_expired(now) {
            (
                self.failed(TransferError::Timeout { timer: Timer::NCr }),
                ReceiveEventView::Failed(TransferError::Timeout { timer: Timer::NCr }),
            )
        } else {
            (self, ReceiveEventView::Nothing)
        }
    }

    /// The session and the event after the CAN driver failed to transmit
    /// the flow control frame handed out last: the sender will not go on,
    /// so a transfer in progress is aborted with `TransmitFailure`. Outside
    /// a transfer nothing changes.
    pub open spec fn after_transmit_failure(self) -> (ReceiveSessionView, ReceiveEventView) {
        if self.state == ReceiveState::ReceivingBlock {
            (
                self.failed(TransferError::TransmitFailure),
                ReceiveEventView::Failed(TransferError::TransmitFailure),
            )
        } else {
            (self, ReceiveEventView::Nothing)
        }
    }

    /// The session after the application gave the transfer up: aborted,
    /// with the error, if any, that it already had, and with the partial
    /// payload discarded.
    pub open spec fn given_up(self) -> ReceiveSessionView {
        ReceiveSessionView { state: ReceiveState::Aborted, reassembly_buffer: Seq::empty(), ..self }
    }
}

impl ReceiveSession {
    /// A session without a transfer.
    pub fn idle() -> (session: ReceiveSession)
        ensures
            session@ == ReceiveSessionView::idle(),
    {
        ReceiveSession {
            expected_total_length: 0,
            bytes_received: 0,
            expected_sequence_number: 1,
            reassembly_buffer: Vec::new(),
            deadline: Deadline { timer: Timer::NCr, expires_at: 0 },
            frames_received_in_block: 0,
            state: ReceiveState::Idle,
            error: None,
        }
    }
}

/// The receive path of the link to one peer.
#[derive(Debug)]
pub struct Reassembler {
    pub config: TransferConfig,
    pub timers: TimerConfig,
    /// The longest payload that the receiver accepts.
    pub capacity: usize,
    pub session: ReceiveSession,
}

impl Reassembler {
    /// The configuration is valid and the session fits it.
    pub open spec fn wf(&self) -> bool {
        self.config.wf() && self.session@.wf(self.config, self.capacity)
    }

    /// Nothing but the session has changed between `before` and `self`.
    pub open spec fn same_settings(&self, before: &Reassembler) -> bool {
        self.config == before.config && self.timers == before.timers && self.capacity
            == before.capacity
    }

    /// A receive path without a transfer, with room for payloads of up to
    /// `capacity` bytes.
    pub fn new(
        config: TransferConfig,
        timers: TimerConfig,
        capacity: usize,
    ) -> (reassembler: Reassembler)
        requires
            config.wf(),
        ensures
            reassembler.wf(),
            reassembler.config == config,
            reassembler.timers == timers,
            reassembler.capacity == capacity,
            reassembler.session@ == ReceiveSessionView::idle(),
    {
        Reassembler { config, timers, capacity, session: ReceiveSession::idle() }
    }

    /// The flow control frame with which this receiver answers.
    fn flow_control_frame(&self, status: FlowStatus) -> (frame: LinkFrame)
        requires
            self.config.wf(),
        ensures
            frame@ == spec_encode(flow_control_pdu(status, self.config), self.config),
    {
        let pdu = Pdu::FlowControl {
            status,
            block_size: self.config.block_size,
            separation_time_code: self.config.separation_time,
        };
        encode(&pdu, &self.config)
    }

    /// Ends the transfer in progress with `error`.
    fn fail(&mut self, error: TransferError) -> (event: ReceiveEvent)
        ensures
            final(self).same_settings(old(self)),
            final(self).session@ == old(self).session@.failed(error),
            event@ == ReceiveEventView::Failed(error),
    {
        self.session.state = ReceiveState::Aborted;
        self.session.reassembly_buffer = Vec::new();
        self.session.error = Some(error);
        ReceiveEvent::Failed(error)
    }

    /// Takes a first frame that arrived at time `now`.
    fn on_first_frame(
        &mut self,
        total_length: u16,
        payload_prefix: Vec<u8>,
        now: u64,
    ) -> (event: ReceiveEvent)
        requires
            old(self).wf(),
            total_length <= MAX_TRANSFER_LENGTH,
            payload_prefix@.len() == FIRST_FRAME_PAYLOAD,
        ensures
            final(self).wf(),
            final(self).same_settings(old(self)),
            (final(self).session@, event@) == old(self).session@.after_first_frame(
                total_length,
                payload_prefix@,
                old(self).config,
                old(self).timers,
                old(self).capacity,
                now,
            ),
    {
        if total_length as usize <= MAX_SINGLE_PAYLOAD {
            ReceiveEvent::Nothing
        } else if total_length as usize > self.capacity {
            self.session = ReceiveSession::idle();
            ReceiveEvent::Rejected(self.flow_control_frame(FlowStatus::Overflow))
        } else {
            self.session = ReceiveSession {
                expected_total_length: total_length,
                bytes_received: FIRST_FRAME_PAYLOAD as u16,
                expected_sequence_number: 1,
                reassembly_buffer: payload_prefix,
                deadline: self.timers.arm(Timer::NCr, now),
                frames_received_in_block: 0,
                state: ReceiveState::ReceivingBlock,
                error: None,
            };
            ReceiveEvent::FlowControl(self.flow_control_frame(FlowStatus::ClearToSend))
        }
    }

    /// Takes a consecutive frame that arrived at time `now`.
    fn on_consecutive_frame(
        &mut self,
        sequence_number: u8,
        payload_chunk: Vec<u8>,
        now: u64,
    ) -> (event: ReceiveEvent)
        requires
            old(self).wf(),
            payload_chunk@.len() <= MAX_CONSECUTIVE_PAYLOAD,
        ensures
            final(self).wf(),
            final(self).same_settings(old(self)),
            (final(self).session@, event@) == old(self).session@.after_consecutive_frame(
                sequence_number,
                payload_chunk@,
                old(self).config,
                old(self).timers,
                now,
            ),
    {
        match self.session.state {
            ReceiveState::ReceivingBlock => {},
            _ => {
                return ReceiveEvent::Nothing;
            },
        }
        if self.session.deadline.has_expired(now) {
            return self.fail(TransferError::Timeout { timer: Timer::NCr });
        }
        if sequence_number != self.session.expected_sequence_number {
            return self.fail(TransferError::UnexpectedSequenceNumber);
        }
        let missing: usize = (self.session.expected_total_length
            - self.session.bytes_received) as usize;
        let accepted: usize = if payload_chunk.len() <= missing {
            payload_chunk.len()
        } else {
            missing
        };
        let ghost before = self.session@;
        self.session.reassembly_buffer.extend_from_slice(
            vstd::slice::slice_subrange(payload_chunk.as_slice(), 0, accepted),
        );
        assert(self.session.reassembly_buffer@ =~= before.reassembly_buffer
            + payload_chunk@.subrange(0, accepted as int));
        self.session.bytes_received = self.session.bytes_received + accepted as u16;
        self.session.expected_sequence_number = following_sequence_number(
            self.session.expected_sequence_number,
        );
        self.session.deadline = self.timers.arm(Timer::NCr, now);
        if self.session.bytes_received == self.session.expected_total_length {
            let mut payload: Vec<u8> = Vec::new();
            core::mem::swap(&mut payload, &mut self.session.reassembly_buffer);
            self.session.state = ReceiveState::Complete;
            ReceiveEvent::Delivered(payload)
        } else if self.config.block_size == 0 {
            ReceiveEvent::Nothing
        } else if self.session.frames_received_in_block + 1 >= self.config.block_size {
            self.session.frames_received_in_block = 0;
            ReceiveEvent::FlowControl(self.flow_control_frame(FlowStatus::ClearToSend))
        } else {
            self.session.frames_received_in_block = self.session.frames_received_in_block + 1;
            ReceiveEvent::Nothing
        }
    }

    /// Takes the protocol frame `pdu`, which arrived at time `now`.
    ///
    /// See [`ReceiveSessionView::after_pdu`].
    pub fn on_pdu(&mut self, pdu: Pdu, now: u64) -> (event: ReceiveEvent)
        requires
            old(self).wf(),
            pdu.wf(),
        ensures
            final(self).wf(),
            final(self).same_settings(old(self)),
            (final(self).session@, event@) == old(self).session@.after_pdu(
                pdu@,
                old(self).config,
                old(self).timers,
                old(self).capacity,
                now,
            ),
    {
        match pdu {
            Pdu::SingleFrame { length, payload } => {
                self.session = ReceiveSession::idle();
                ReceiveEvent::Delivered(payload)
            },
            Pdu::FirstFrame { total_length, payload_prefix } => self.on_first_frame(
                total_length,
                payload_prefix,
                now,
            ),
            Pdu::ConsecutiveFrame { sequence_number, payload_chunk } => self.on_consecutive_frame(
                sequence_number,
                payload_chunk,
                now,
            ),
            Pdu::FlowControl { .. } => ReceiveEvent::Nothing,
        }
    }

    /// Takes the link frame `frame`, which arrived at time `now`.
    ///
    /// See [`ReceiveSessionView::after_frame`].
    pub fn on_frame(&mut self, frame: &LinkFrame, now: u64) -> (event: ReceiveEvent)
        requires
            old(self).wf(),
        ensures
            final(self).wf(),
            final(self).same_settings(old(self)),
            (final(self).session@, event@) == old(self).session@.after_frame(
                frame@,
                old(self).config,
                old(self).timers,
                old(self).capacity,
                now,
            ),
    {
        match decode(frame) {
            Ok(pdu) => self.on_pdu(pdu, now),
            Err(e) => ReceiveEvent::Failed(TransferError::from(e)),
        }
    }

    /// Lets the session act at time `now`.
    ///
    /// See [`ReceiveSessionView::after_poll`].
    pub fn poll(&mut self, now: u64) -> (event: ReceiveEvent)
        requires
            old(self).wf(),
        ensures
            final(self).wf(),
            final(self).same_settings(old(self)),
            (final(self).session@, event@) == old(self).session@.after_poll(now),
    {
        match self.session.state {
            ReceiveState::ReceivingBlock => {
                if self.session.deadline.has_expired(now) {
                    self.fail(TransferError::Timeout { timer: Timer::NCr })
                } else {
                    ReceiveEvent::Nothing
                }
            },
            _ => ReceiveEvent::Nothing,
        }
    }

    /// Takes the CAN driver's report that the flow control frame handed
    /// out last could not be transmitted.
    ///
    /// See [`ReceiveSessionView::after_transmit_failure`].
    pub fn on_transmit_failure(&mut self) -> (event: ReceiveEvent)
        requires
            old(self).wf(),
        ensures
            final(self).wf(),
            final(self).same_settings(old(self)),
            (final(self).session@, event@) == old(self).session@.after_transmit_failure(),
    {
        match self.session.state {
            ReceiveState::ReceivingBlock => self.fail(TransferError::TransmitFailure),
            _ => ReceiveEvent::Nothing,
        }
    }

    /// Gives the transfer up. Doing so again changes nothing.
    pub fn abort(&mut self)
        requires
            old(self).wf(),
        ensures
            final(self).wf(),
            final(self).same_settings(old(self)),
            final(self).session@ == old(self).session@.given_up(),
            final(self).session@.given_up() == final(self).session@,
    {
        self.session.state = ReceiveState::Aborted;
        self.session.reassembly_buffer = Vec::new();
    }
}

/// Every step of the receive path keeps a session fitted to its receiver.
pub proof fn lemma_steps_keep_wf(
    session: ReceiveSessionView,
    pdu: PduView,
    config: TransferConfig,
    timers: TimerConfig,
    capacity: usize,
    now: u64,
)
    requires
        session.wf(config, capacity),
        pdu.wf(),
    ensures
        session.after_pdu(pdu, config, timers, capacity, now).0.wf(config, capacity),
        session.after_poll(now).0.wf(config, capacity),
        session.after_transmit_failure().0.wf(config, capacity),
        session.given_up().wf(config, capacity),
{
}

/// Consecutive frame timeout: a session that began to wait for a
/// consecutive frame at time `since` is aborted with
/// `Timeout { timer: NCr }` by the first poll, and by the first
/// consecutive frame, that comes more than N_Cr later, and the partial
/// payload is discarded. Up to that moment a poll leaves it as it is.
pub proof fn lemma_consecutive_frame_timeout(
    session: ReceiveSessionView,
    sequence_number: u8,
    payload_chunk: Seq<u8>,
    config: TransferConfig,
    timers: TimerConfig,
    since: u64,
    now: u64,
)
    requires
        session.state == ReceiveState::ReceivingBlock,
        session.deadline == spec_arm(timers, Timer::NCr, since),
    ensures
        now - since > timers.n_cr ==> {
            &&& session.after_poll(now).0.state == ReceiveState::Aborted
            &&& session.after_poll(now).0.error == Some(
                TransferError::Timeout { timer: Timer::NCr },
            )
            &&& session.after_poll(now).0.reassembly_buffer == Seq::<u8>::empty()
            &&& session.after_poll(now).1 == ReceiveEventView::Failed(
                TransferError::Timeout { timer: Timer::NCr },
            )
            &&& session.after_consecutive_frame(
                sequence_number,
                payload_chunk,
                config,
                timers,
                now,
            ) == session.after_poll(now)
        },
        now - since <= timers.n_cr ==> session.after_poll(now) == (
            session,
            ReceiveEventView::Nothing,
        ),
{
}

/// Overflow rejection: a first frame that announces more bytes than the
/// receiver has room for is answered at once with flow control
/// `Overflow`, and no session is opened. Nothing is written to the
/// buffer: an idle session stays exactly as it was.
pub proof fn lemma_overflow_rejected(
    session: ReceiveSessionView,
    total_length: u16,
    payload_prefix: Seq<u8>,
    config: TransferConfig,
    timers: TimerConfig,
    capacity: usize,
    now: u64,
)
    requires
        session.wf(config, capacity),
        MAX_SINGLE_PAYLOAD < total_length,
        total_length > capacity,
    ensures
        ({
            let (next, event) = session.after_first_frame(
                total_length,
                payload_prefix,
                config,
                timers,
                capacity,
                now,
            );
            &&& event matches ReceiveEventView::Rejected(frame) && spec_decode(frame) == Ok::<
                PduView,
                DecodeError,
            >(flow_control_pdu(FlowStatus::Overflow, config))
            &&& next == ReceiveSessionView::idle()
            &&& next.reassembly_buffer == Seq::<u8>::empty()
            &&& session.state == ReceiveState::Idle ==> next == session
        }),
{
    lemma_decode_encode(flow_control_pdu(FlowStatus::Overflow, config), config);
}

/// Out-of-order frames: a consecutive frame that arrives in time with
/// another sequence number than the expected one aborts the session with
/// `UnexpectedSequenceNumber`.
pub proof fn lemma_unexpected_sequence_number(
    session: ReceiveSessionView,
    sequence_number: u8,
    payload_chunk: Seq<u8>,
    config: TransferConfig,
    timers: TimerConfig,
    now: u64,
)
    requires
        session.state == ReceiveState::ReceivingBlock,
        !session.deadline.spec_has_expired(now),
        sequence_number != session.expected_sequence_number,
    ensures
        session.after_consecutive_frame(sequence_number, payload_chunk, config, timers, now) == (
            session.failed(TransferError::UnexpectedSequenceNumber),
            ReceiveEventView::Failed(TransferError::UnexpectedSequenceNumber),
        ),
{
}

/// Terminal states: a session that is complete or aborted is not changed
/// by a poll, by a consecutive frame, by a flow control frame or by the
/// report of a transmit failure; only a first frame or a single frame
/// begins anew.
pub proof fn lemma_terminal_states(
    session: ReceiveSessionView,
    pdu: PduView,
    config: TransferConfig,
    timers: TimerConfig,
    capacity: usize,
    now: u64,
)
    requires
        session.state == ReceiveState::Complete || session.state == ReceiveState::Aborted,
        pdu is ConsecutiveFrame || pdu is FlowControl,
    ensures
        session.after_poll(now) == (session, ReceiveEventView::Nothing),
        session.after_pdu(pdu, config, timers, capacity, now) == (
            session,
            ReceiveEventView::Nothing,
        ),
        session.after_transmit_failure() == (session, ReceiveEventView::Nothing),
{
}

} // verus!

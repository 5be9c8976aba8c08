//! The send path: one outbound session that turns a payload into a first
//! frame followed by consecutive frames, paced by the peer's flow control.
//!
//! The session never transmits. [`Segmenter::poll`] hands out the next
//! frame when one is due; the caller transmits it and reports a failure
//! with [`Segmenter::on_transmit_failure`]. Flow control frames from the
//! peer come in through [`Segmenter::on_flow_control`].

use crate::isotp::codec::{copy_of_range, encode};
use crate::isotp::config::{FlowControlPolicy, TransferConfig};
use crate::isotp::error::TransferError;
use crate::isotp::frame::{
    FlowStatus, LinkFrame, LinkFrameView, Pdu, FIRST_FRAME_PAYLOAD, MAX_CONSECUTIVE_PAYLOAD,
    MAX_SINGLE_PAYLOAD, MAX_TRANSFER_LENGTH,
};
use crate::isotp::segmentation::{
    consecutive_count, following_sequence_number, lemma_chunks, lemma_count_step,
    lemma_segment_wf, pdu_at, sequence_number_of, spec_following_sequence_number, spec_segment,
};
use crate::isotp::timing::{
    deadline_after, separation_time_us, spec_arm, spec_deadline_after, spec_separation_time_us,
    Deadline, Timer, TimerConfig,
};
use vstd::prelude::*;

verus! {

/// Where a send session stands.
#[derive(Clone, Copy, Debug, PartialEq, Eq, Structural)]
pub enum SendState {
    /// No transfer was asked for.
    Idle,
    /// A payload was taken; its first frame is not out yet.
    AwaitingFirstSend,
    /// The peer cleared a block; consecutive frames go out one by one.
    SendingBlock,
    /// The first frame or a whole block is out; the peer's flow control
    /// frame is awaited.
    AwaitingFlowControl,
    /// Every byte of the payload has been handed out.
    Complete,
    /// The transfer failed or was given up.
    Aborted,
}

/// The state of one outbound transfer.
#[derive(Clone, Copy, Debug)]
pub struct SendSession {
    /// The length of the payload.
    pub total_length: u16,
    /// How many payload bytes have been handed out in frames.
    pub bytes_sent: u16,
    /// The sequence number of the next consecutive frame: 1 to 15, and 1
    /// again after 15.
    pub next_sequence_number: u8,
    /// How many consecutive frames went out since the last `ClearToSend`.
    pub frames_sent_in_block: u16,
    pub state: SendState,
    /// The block size of the last `ClearToSend`; zero means no limit.
    pub block_size: u8,
    /// The separation time of the last `ClearToSend`, in microseconds.
    pub separation_us: u32,
    /// How many `Wait` frames came in a row.
    pub wait_frames: u8,
    /// Until when the next flow control frame may arrive.
    pub flow_control_deadline: Deadline,
    /// From when on the next consecutive frame may go out.
    pub next_send_at: u64,
    /// Why the session was aborted, if it failed.
    pub error: Option<TransferError>,
}

impl SendSession {
    /// A session without a transfer.
    pub open spec fn spec_idle() -> SendSession {
        SendSession {
            total_length: 0,
            bytes_sent: 0,
            next_sequence_number: 1,
            frames_sent_in_block: 0,
            state: SendState::Idle,
            block_size: 0,
            separation_us: 0,
            wait_frames: 0,
            flow_control_deadline: Deadline { timer: Timer::NBs, expires_at: 0 },
            next_send_at: 0,
            error: None,
        }
    }

    /// A session without a transfer.
    #[verifier::when_used_as_spec(spec_idle)]
    pub fn idle() -> (session: SendSession)
        ensures
            session == SendSession::spec_idle(),
    {
        SendSession {
            total_length: 0,
            bytes_sent: 0,
            next_sequence_number: 1,
            frames_sent_in_block: 0,
            state: SendState::Idle,
            block_size: 0,
            separation_us: 0,
            wait_frames: 0,
            flow_control_deadline: Deadline { timer: Timer::NBs, expires_at: 0 },
            next_send_at: 0,
            error: None,
        }
    }

    /// A session that has taken a payload of `total_length` bytes and has
    /// sent nothing of it.
    pub open spec fn queued(total_length: u16) -> SendSession {
        SendSession {
            total_length,
            state: SendState::AwaitingFirstSend,
            ..SendSession::spec_idle()
        }
    }

    /// How many frames of the transfer have been handed out.
    pub open spec fn frames_emitted(self) -> nat {
        match self.state {
            SendState::Idle | SendState::AwaitingFirstSend => 0,
            _ => 1 + consecutive_count(self.bytes_sent as nat),
        }
    }

    /// The session fits a payload of `payload_len` bytes.
    ///
    /// While the transfer is in progress, the first frame's 6 bytes and a
    /// whole number of 7-byte chunks are out, some bytes are left, and the
    /// next sequence number is the one that the count of consecutive
    /// frames calls for. While a block is being sent it is not yet full;
    /// while flow control is awaited, either only the first frame is out
    /// or the block just sent is exactly full.
    pub open spec fn wf(self, payload_len: nat) -> bool {
        match self.state {
            SendState::Idle | SendState::Aborted => true,
            SendState::AwaitingFirstSend => {
                &&& self.total_length == payload_len
                &&& payload_len <= MAX_TRANSFER_LENGTH
                &&& self.bytes_sent == 0
            },
            SendState::Complete => {
                &&& self.total_length == payload_len
                &&& payload_len <= MAX_TRANSFER_LENGTH
                &&& self.bytes_sent == self.total_length
            },
            SendState::SendingBlock | SendState::AwaitingFlowControl => {
                &&& self.total_length == payload_len
                &&& MAX_SINGLE_PAYLOAD < payload_len <= MAX_TRANSFER_LENGTH
                &&& FIRST_FRAME_PAYLOAD <= self.bytes_sent < self.total_length
                &&& (self.bytes_sent - FIRST_FRAME_PAYLOAD) % (MAX_CONSECUTIVE_PAYLOAD as int) == 0
                &&& self.next_sequence_number == sequence_number_of(
                    consecutive_count(self.bytes_sent as nat),
                )
                &&& self.frames_sent_in_block <= consecutive_count(self.bytes_sent as nat)
                &&& self.state == SendState::SendingBlock ==> self.block_size == 0
                    || self.frames_sent_in_block < self.block_size
                &&& self.state == SendState::AwaitingFlowControl ==> {
                    &&& self.flow_control_deadline.timer == Timer::NBs
                    &&& if self.bytes_sent == FIRST_FRAME_PAYLOAD {
                        self.frames_sent_in_block == 0
                    } else {
                        self.block_size != 0 && self.frames_sent_in_block == self.block_size
                    }
                }
            },
        }
    }

    /// The session with its transfer given up for `error`.
    pub open spec fn failed(self, error: TransferError) -> SendSession {
        SendSession { state: SendState::Aborted, error: Some(error), ..self }
    }

    /// The session once its first frame is out, at time `now`: complete if
    /// that was a single frame; else waiting for flow control, with the
    /// flow control timer started and sequence number 1 next.
    pub open spec fn after_first_frame(self, timers: TimerConfig, now: u64) -> SendSession {
        if self.total_length <= MAX_SINGLE_PAYLOAD {
            SendSession { state: SendState::Complete, bytes_sent: self.total_length, ..self }
        } else {
            SendSession {
                state: SendState::AwaitingFlowControl,
                bytes_sent: FIRST_FRAME_PAYLOAD as u16,
                next_sequence_number: 1,
                frames_sent_in_block: 0,
                wait_frames: 0,
                flow_control_deadline: spec_arm(timers, Timer::NBs, now),
                ..self
            }
        }
    }

    /// How many payload bytes the next consecutive frame carries.
    pub open spec fn next_chunk_len(self) -> int {
        if self.total_length - self.bytes_sent < MAX_CONSECUTIVE_PAYLOAD {
            self.total_length - self.bytes_sent
        } else {
            MAX_CONSECUTIVE_PAYLOAD as int
        }
    }

    /// The session once the next consecutive frame is out, at time `now`:
    /// complete if that was the last byte; waiting for flow control if the
    /// block is full; else still sending, the next frame due after the
    /// separation time.
    pub open spec fn after_consecutive_frame(self, timers: TimerConfig, now: u64) -> SendSession {
        let sent = SendSession {
            bytes_sent: (self.bytes_sent + self.next_chunk_len()) as u16,
            next_sequence_number: spec_following_sequence_number(self.next_sequence_number),
            frames_sent_in_block: (self.frames_sent_in_block + 1) as u16,
            ..self
        };
        if sent.bytes_sent == self.total_length {
            SendSession { state: SendState::Complete, ..sent }
        } else if self.block_size != 0 && sent.frames_sent_in_block >= self.block_size {
            SendSession {
                state: SendState::AwaitingFlowControl,
                wait_frames: 0,
                flow_control_deadline: spec_arm(timers, Timer::NBs, now),
                ..sent
            }
        } else {
            SendSession { next_send_at: spec_deadline_after(now, self.separation_us), ..sent }
        }
    }

    /// Whether the session waits for flow control at time `now` though the
    /// flow control timer has run out.
    pub open spec fn awaits_in_vain(self, now: u64) -> bool {
        self.state == SendState::AwaitingFlowControl
            && self.flow_control_deadline.spec_has_expired(now)
    }

    /// Whether a poll at time `now` hands out a frame: the first frame is
    /// still to go, or a block is being sent and the separation time since
    /// the last frame is over.
    pub open spec fn emits(self, now: u64) -> bool {
        self.state == SendState::AwaitingFirstSend || (self.state == SendState::SendingBlock
            && now >= self.next_send_at)
    }

    /// The session after a poll at time `now`.
    pub open spec fn after_poll(self, timers: TimerConfig, now: u64) -> SendSession {
        match self.state {
            SendState::AwaitingFirstSend => self.after_first_frame(timers, now),
            SendState::SendingBlock => if now >= self.next_send_at {
                self.after_consecutive_frame(timers, now)
            } else {
                self
            },
            SendState::AwaitingFlowControl => if self.awaits_in_vain(now) {
                self.failed(TransferError::Timeout { timer: Timer::NBs })
            } else {
                self
            },
            _ => self,
        }
    }

    /// The session after a flow control frame that arrived at time `now`.
    ///
    /// Outside `AwaitingFlowControl` the frame changes nothing. One that
    /// comes after the flow control timer ran out is too late. Else
    /// `ClearToSend` opens a block with the frame's block size and
    /// separation time; `Wait` starts the timer again, unless the policy's
    /// count of `Wait` frames is used up; `Overflow` ends the transfer.
    pub open spec fn after_flow_control(
        self,
        policy: FlowControlPolicy,
        timers: TimerConfig,
        status: FlowStatus,
        block_size: u8,
        separation_time_code: u8,
        now: u64,
    ) -> SendSession {
        if self.state != SendState::AwaitingFlowControl {
            self
        } else if self.awaits_in_vain(now) {
            self.failed(TransferError::Timeout { timer: Timer::NBs })
        } else {
            match status {
                FlowStatus::ClearToSend => SendSession {
                    state: SendState::SendingBlock,
                    block_size,
                    separation_us: spec_separation_time_us(separation_time_code),
                    frames_sent_in_block: 0,
                    wait_frames: 0,
                    next_send_at: now,
                    ..self
                },
                FlowStatus::Wait => if self.wait_frames >= policy.max_wait_frames {
                    self.failed(TransferError::PeerAborted)
                } else {
                    SendSession {
                        wait_frames: (self.wait_frames + 1) as u8,
                        flow_control_deadline: spec_arm(timers, Timer::NBs, now),
                        ..self
                    }
                },
                FlowStatus::Overflow => self.failed(TransferError::PeerAborted),
            }
        }
    }

    /// Whether the last frame handed out was a consecutive frame.
    pub open spec fn last_was_consecutive(self) -> bool {
        self.total_length > MAX_SINGLE_PAYLOAD && self.bytes_sent > FIRST_FRAME_PAYLOAD
    }

    /// The session after the CAN driver failed to transmit the last frame
    /// handed out. Where no frame is out, or the session is over already,
    /// nothing changes. A consecutive frame that cannot go out breaks the
    /// pace of the block, which counts as the timer N_Cs running out; for
    /// any other frame the failure is reported as it is.
    pub open spec fn after_transmit_failure(self) -> SendSession {
        match self.state {
            SendState::Idle | SendState::AwaitingFirstSend | SendState::Aborted => self,
            _ => if self.last_was_consecutive() {
                self.failed(TransferError::Timeout { timer: Timer::NCs })
            } else {
                self.failed(TransferError::TransmitFailure)
            },
        }
    }

    /// The session after the application gave the transfer up: aborted,
    /// with the error, if any, that it already had.
    pub open spec fn given_up(self) -> SendSession {
        SendSession { state: SendState::Aborted, ..self }
    }
}

/// The send path of the link to one peer.
#[derive(Debug)]
pub struct Segmenter {
    pub config: TransferConfig,
    pub timers: TimerConfig,
    /// The payload of the transfer in flight.
    pub payload: Vec<u8>,
    pub session: SendSession,
}

impl Segmenter {
    /// The configuration is valid and the session fits the payload.
    pub open spec fn wf(&self) -> bool {
        self.config.wf() && self.session.wf(self.payload@.len())
    }

    /// The frame of the transfer that is handed out next: the one behind
    /// those that are out.
    pub open spec fn next_frame(&self) -> LinkFrameView {
        spec_segment(self.payload@, self.config)[self.session.frames_emitted() as int]
    }

    /// A send path without a transfer.
    pub fn new(config: TransferConfig, timers: TimerConfig) -> (segmenter: Segmenter)
        requires
            config.wf(),
        ensures
            segmenter.wf(),
            segmenter.config == config,
            segmenter.timers == timers,
            segmenter.payload@ == Seq::<u8>::empty(),
            segmenter.session == SendSession::spec_idle(),
    {
        Segmenter { config, timers, payload: Vec::new(), session: SendSession::idle() }
    }

    /// Takes `payload` for sending to the peer of `config`, in place of
    /// whatever transfer the session held. Nothing is sent yet: the first
    /// poll hands out the first frame.
    ///
    /// A payload of more than 4095 bytes is refused with `LengthOutOfRange`,
    /// and the session stays as it was.
    pub fn queue(&mut self, payload: Vec<u8>, config: TransferConfig) -> (r: Result<
        (),
        TransferError,
    >)
        requires
            old(self).wf(),
            config.wf(),
        ensures
            final(self).wf(),
            final(self).timers == old(self).timers,
            r is Ok <==> payload@.len() <= MAX_TRANSFER_LENGTH,
            r is Ok ==> {
                &&& final(self).payload@ == payload@
                &&& final(self).config == config
                &&& final(self).session == SendSession::queued(payload@.len() as u16)
            },
            r is Err ==> {
                &&& r == Err::<(), TransferError>(TransferError::LengthOutOfRange)
                &&& final(self).payload@ == old(self).payload@
                &&& final(self).config == old(self).config
                &&& final(self).session == old(self).session
            },
    {
        if payload.len() > MAX_TRANSFER_LENGTH {
            return Err(TransferError::LengthOutOfRange);
        }
        let total_length: u16 = payload.len() as u16;
        self.payload = payload;
        self.config = config;
        self.session = SendSession {
            total_length,
            state: SendState::AwaitingFirstSend,
            ..SendSession::idle()
        };
        Ok(())
    }

    /// Starts the transfer of `payload` to the peer of `config` at time
    /// `now`, in place of whatever transfer the session held, and returns
    /// the frame to transmit first.
    ///
    /// A payload of at most 7 bytes goes out as one single frame, and the
    /// session is complete. A longer one opens with a first frame; the
    /// session waits for the peer's flow control frame, with sequence
    /// number 1 next and no frame sent in the block. A payload of more than
    /// 4095 bytes is refused with `LengthOutOfRange` before anything is
    /// sent, and the session stays as it was.
    pub fn start(&mut self, payload: Vec<u8>, config: TransferConfig, now: u64) -> (r: Result<
        LinkFrame,
        TransferError,
    >)
        requires
            old(self).wf(),
            config.wf(),
        ensures
            final(self).wf(),
            final(self).timers == old(self).timers,
            r is Ok <==> payload@.len() <= MAX_TRANSFER_LENGTH,
            r matches Ok(frame) ==> {
                &&& final(self).payload@ == payload@
                &&& final(self).config == config
                &&& final(self).session == SendSession::queued(
                    payload@.len() as u16,
                ).after_first_frame(old(self).timers, now)
                &&& frame@ == spec_segment(payload@, config)[0]
                &&& payload@.len() <= MAX_SINGLE_PAYLOAD ==> final(self).session.state
                    == SendState::Complete
                &&& payload@.len() > MAX_SINGLE_PAYLOAD ==> {
                    &&& final(self).session.state == SendState::AwaitingFlowControl
                    &&& final(self).session.next_sequence_number == 1
                    &&& final(self).session.frames_sent_in_block == 0
                }
            },
            r matches Err(e) ==> {
                &&& e == TransferError::LengthOutOfRange
                &&& final(self).payload@ == old(self).payload@
                &&& final(self).config == old(self).config
                &&& final(self).session == old(self).session
            },
    {
        match self.queue(payload, config) {
            Err(e) => Err(e),
            Ok(()) => Ok(self.send_first(now)),
        }
    }

    /// Hands out the frame that opens the transfer.
    fn send_first(&mut self, now: u64) -> (frame: LinkFrame)
        requires
            old(self).wf(),
            old(self).session.state == SendState::AwaitingFirstSend,
        ensures
            final(self).wf(),
            final(self).config == old(self).config,
            final(self).timers == old(self).timers,
            final(self).payload@ == old(self).payload@,
            final(self).session == old(self).session.after_first_frame(old(self).timers, now),
            frame@ == old(self).next_frame(),
    {
        let total_length = self.session.total_length;
        proof {
            lemma_segment_wf(self.payload@, 0);
        }
        if self.payload.len() <= MAX_SINGLE_PAYLOAD {
            let pdu = Pdu::SingleFrame {
                length: total_length as u8,
                payload: copy_of_range(self.payload.as_slice(), 0, self.payload.len()),
            };
            assert(pdu@ =~= pdu_at(self.payload@, 0)) by {
                assert(self.payload@.subrange(0, self.payload@.len() as int) =~= self.payload@);
            }
            self.session = SendSession {
                state: SendState::Complete,
                bytes_sent: total_length,
                ..self.session
            };
            encode(&pdu, &self.config)
        } else {
            let pdu = Pdu::FirstFrame {
                total_length,
                payload_prefix: copy_of_range(self.payload.as_slice(), 0, FIRST_FRAME_PAYLOAD),
            };
            assert(pdu@ =~= pdu_at(self.payload@, 0));
            self.session = SendSession {
                state: SendState::AwaitingFlowControl,
                bytes_sent: FIRST_FRAME_PAYLOAD as u16,
                next_sequence_number: 1,
                frames_sent_in_block: 0,
                wait_frames: 0,
                flow_control_deadline: self.timers.arm(Timer::NBs, now),
                ..self.session
            };
            encode(&pdu, &self.config)
        }
    }

    /// Hands out the next consecutive frame of the block.
    fn send_consecutive(&mut self, now: u64) -> (frame: LinkFrame)
        requires
            old(self).wf(),
            old(self).session.state == SendState::SendingBlock,
        ensures
            final(self).wf(),
            final(self).config == old(self).config,
            final(self).timers == old(self).timers,
            final(self).payload@ == old(self).payload@,
            final(self).session == old(self).session.after_consecutive_frame(
                old(self).timers,
                now,
            ),
            frame@ == old(self).next_frame(),
    {
        let session = self.session;
        let ghost k = consecutive_count(session.bytes_sent as nat);
        proof {
            lemma_count_step(session.bytes_sent as nat, self.payload@.len());
            lemma_chunks(self.payload@, k);
            lemma_segment_wf(self.payload@, 1 + k);
        }
        let left: u16 = session.total_length - session.bytes_sent;
        let take: u16 = if left < MAX_CONSECUTIVE_PAYLOAD as u16 {
            left
        } else {
            MAX_CONSECUTIVE_PAYLOAD as u16
        };
        let from: usize = session.bytes_sent as usize;
        let pdu = Pdu::ConsecutiveFrame {
            sequence_number: session.next_sequence_number,
            payload_chunk: copy_of_range(self.payload.as_slice(), from, from + take as usize),
        };
        assert(pdu@ =~= pdu_at(self.payload@, 1 + k));
        let bytes_sent: u16 = session.bytes_sent + take;
        let frames_sent_in_block: u16 = session.frames_sent_in_block + 1;
        let sent = SendSession {
            bytes_sent,
            next_sequence_number: following_sequence_number(session.next_sequence_number),
            frames_sent_in_block,
            ..session
        };
        if bytes_sent == session.total_length {
            self.session = SendSession { state: SendState::Complete, ..sent };
        } else if session.block_size != 0 && frames_sent_in_block >= session.block_size as u16 {
            self.session = SendSession {
                state: SendState::AwaitingFlowControl,
                wait_frames: 0,
                flow_control_deadline: self.timers.arm(Timer::NBs, now),
                ..sent
            };
        } else {
            self.session = SendSession {
                next_send_at: deadline_after(now, session.separation_us),
                ..sent
            };
        }
        encode(&pdu, &self.config)
    }

    /// Lets the session act at time `now`, and returns the frame to
    /// transmit, if one is due.
    ///
    /// A payload just taken gives its first frame. While a block is being
    /// sent, the next consecutive frame is handed out once the separation
    /// time since the last one is over; with a block size of zero the
    /// session never stops for flow control, else it does so when exactly
    /// that many frames of the block are out. While flow control is
    /// awaited, the session is aborted with `Timeout { timer: NBs }` once
    /// the flow control timer has run out. The frames come out in the
    /// order of the transfer.
    pub fn poll(&mut self, now: u64) -> (frame: Option<LinkFrame>)
        requires
            old(self).wf(),
        ensures
            final(self).wf(),
            final(self).config == old(self).config,
            final(self).timers == old(self).timers,
            final(self).payload@ == old(self).payload@,
            final(self).session == old(self).session.after_poll(old(self).timers, now),
            frame is Some <==> old(self).session.emits(now),
            frame matches Some(f) ==> f@ == old(self).next_frame(),
            old(self).session.awaits_in_vain(now) ==> final(self).session.state
                == SendState::Aborted && final(self).session.error == Some(
                TransferError::Timeout { timer: Timer::NBs },
            ),
            old(self).session.state == SendState::SendingBlock && old(self).session.block_size == 0
                ==> final(self).session.state != SendState::AwaitingFlowControl
                && final(self).session.state != SendState::Aborted,
    {
        match self.session.state {
            SendState::AwaitingFirstSend => Some(self.send_first(now)),
            SendState::SendingBlock => {
                if now >= self.session.next_send_at {
                    Some(self.send_consecutive(now))
                } else {
                    None
                }
            },
            SendState::AwaitingFlowControl => {
                if self.session.flow_control_deadline.has_expired(now) {
                    self.session = SendSession {
                        state: SendState::Aborted,
                        error: Some(TransferError::Timeout { timer: Timer::NBs }),
                        ..self.session
                    };
                }
                None
            },
            _ => None,
        }
    }

    /// Takes the peer's flow control frame, which arrived at time `now`.
    ///
    /// See [`SendSession::after_flow_control`].
    pub fn on_flow_control(
        &mut self,
        status: FlowStatus,
        block_size: u8,
        separation_time_code: u8,
        now: u64,
    )
        requires
            old(self).wf(),
        ensures
            final(self).wf(),
            final(self).config == old(self).config,
            final(self).timers == old(self).timers,
            final(self).payload@ == old(self).payload@,
            final(self).session == old(self).session.after_flow_control(
                old(self).config.flow_control_policy,
                old(self).timers,
                status,
                block_size,
                separation_time_code,
                now,
            ),
    {
        let session = self.session;
        match session.state {
            SendState::AwaitingFlowControl => {},
            _ => {
                return;
            },
        }
        if session.flow_control_deadline.has_expired(now) {
            self.session = SendSession {
                state: SendState::Aborted,
                error: Some(TransferError::Timeout { timer: Timer::NBs }),
                ..session
            };
            return;
        }
        match status {
            FlowStatus::ClearToSend => {
                self.session = SendSession {
                    state: SendState::SendingBlock,
                    block_size,
                    separation_us: separation_time_us(separation_time_code),
                    frames_sent_in_block: 0,
                    wait_frames: 0,
                    next_send_at: now,
                    ..session
                };
            },
            FlowStatus::Wait => {
                if session.wait_frames >= self.config.flow_control_policy.max_wait_frames {
                    self.session = SendSession {
                        state: SendState::Aborted,
                        error: Some(TransferError::PeerAborted),
                        ..session
                    };
                } else {
                    self.session = SendSession {
                        wait_frames: session.wait_frames + 1,
                        flow_control_deadline: self.timers.arm(Timer::NBs, now),
                        ..session
                    };
                }
            },
            FlowStatus::Overflow => {
                self.session = SendSession {
                    state: SendState::Aborted,
                    error: Some(TransferError::PeerAborted),
                    ..session
                };
            },
        }
    }

    /// Takes the CAN driver's report that the last frame handed out could
    /// not be transmitted.
    ///
    /// See [`SendSession::after_transmit_failure`].
    pub fn on_transmit_failure(&mut self)
        requires
            old(self).wf(),
        ensures
            final(self).wf(),
            final(self).config == old(self).config,
            final(self).timers == old(self).timers,
            final(self).payload@ == old(self).payload@,
            final(self).session == old(self).session.after_transmit_failure(),
    {
        let session = self.session;
        match session.state {
            SendState::Idle | SendState::AwaitingFirstSend | SendState::Aborted => {},
            _ => {
                let error = if session.total_length > MAX_SINGLE_PAYLOAD as u16
                    && session.bytes_sent > FIRST_FRAME_PAYLOAD as u16 {
                    TransferError::Timeout { timer: Timer::NCs }
                } else {
                    TransferError::TransmitFailure
                };
                self.session = SendSession {
                    state: SendState::Aborted,
                    error: Some(error),
                    ..session
                };
            },
        }
    }

    /// Gives the transfer up. Doing so again changes nothing.
    pub fn abort(&mut self)
        requires
            old(self).wf(),
        ensures
            final(self).wf(),
            final(self).config == old(self).config,
            final(self).timers == old(self).timers,
            final(self).payload@ == old(self).payload@,
            final(self).session == old(self).session.given_up(),
            final(self).session.given_up() == final(self).session,
    {
        self.session = SendSession { state: SendState::Aborted, ..self.session };
    }
}

/// The session after polls at the times `times`, one after the other.
pub open spec fn after_polls(
    session: SendSession,
    timers: TimerConfig,
    times: Seq<u64>,
) -> SendSession
    decreases times.len(),
{
    if times.len() == 0 {
        session
    } else {
        after_polls(session, timers, times.drop_last()).after_poll(timers, times.last())
    }
}

/// Every step of the send path keeps a session fitted to its payload.
pub proof fn lemma_steps_keep_wf(
    session: SendSession,
    payload_len: nat,
    policy: FlowControlPolicy,
    timers: TimerConfig,
    status: FlowStatus,
    block_size: u8,
    separation_time_code: u8,
    now: u64,
)
    requires
        session.wf(payload_len),
    ensures
        session.after_poll(timers, now).wf(payload_len),
        session.after_flow_control(
            policy,
            timers,
            status,
            block_size,
            separation_time_code,
            now,
        ).wf(payload_len),
        session.after_transmit_failure().wf(payload_len),
        session.given_up().wf(payload_len),
{
    if session.state == SendState::SendingBlock {
        lemma_count_step(session.bytes_sent as nat, payload_len);
    }
}

/// Flow control timeout: a session that began to wait for flow control at
/// time `since` is aborted with `Timeout { timer: NBs }` by the first poll,
/// and by the first flow control frame, that comes more than N_Bs later.
/// Up to that moment a poll leaves it as it is.
pub proof fn lemma_flow_control_timeout(
    session: SendSession,
    policy: FlowControlPolicy,
    timers: TimerConfig,
    status: FlowStatus,
    block_size: u8,
    separation_time_code: u8,
    since: u64,
    now: u64,
)
    requires
        session.state == SendState::AwaitingFlowControl,
        session.flow_control_deadline == spec_arm(timers, Timer::NBs, since),
    ensures
        now - since > timers.n_bs ==> {
            &&& session.after_poll(timers, now).state == SendState::Aborted
            &&& session.after_poll(timers, now).error == Some(
                TransferError::Timeout { timer: Timer::NBs },
            )
            &&& session.after_flow_control(
                policy,
                timers,
                status,
                block_size,
                separation_time_code,
                now,
            ) == session.after_poll(timers, now)
        },
        now - since <= timers.n_bs ==> session.after_poll(timers, now) == session,
{
}

/// Block boundaries: when a poll hands out a consecutive frame, the
/// session is complete exactly if that was the last byte; else it stops
/// for flow control exactly if the peer set a block size and the block now
/// holds that many frames; else it goes on sending.
pub proof fn lemma_block_boundary(
    session: SendSession,
    payload_len: nat,
    timers: TimerConfig,
    now: u64,
)
    requires
        session.wf(payload_len),
        session.state == SendState::SendingBlock,
        now >= session.next_send_at,
    ensures
        ({
            let next = session.after_poll(timers, now);
            &&& next.frames_sent_in_block == session.frames_sent_in_block + 1
            &&& next.block_size == session.block_size
            &&& next.state == SendState::Complete <==> next.bytes_sent == payload_len
            &&& next.state == SendState::AwaitingFlowControl <==> next.bytes_sent < payload_len
                && session.block_size != 0 && next.frames_sent_in_block == session.block_size
            &&& next.state == SendState::SendingBlock <==> next.bytes_sent < payload_len && (
            session.block_size == 0 || next.frames_sent_in_block < session.block_size)
        }),
{
}

/// With a block size of zero the sender never stops for flow control
/// again: whenever it is polled, and however often, it is still sending or
/// it is complete.
pub proof fn lemma_unlimited_block(
    session: SendSession,
    payload_len: nat,
    timers: TimerConfig,
    times: Seq<u64>,
)
    requires
        session.wf(payload_len),
        session.state == SendState::SendingBlock,
        session.block_size == 0,
    ensures
        after_polls(session, timers, times).wf(payload_len),
        after_polls(session, timers, times).block_size == 0,
        after_polls(session, timers, times).state == SendState::SendingBlock || after_polls(
            session,
            timers,
            times,
        ).state == SendState::Complete,
    decreases times.len(),
{
    if times.len() > 0 {
        lemma_unlimited_block(session, payload_len, timers, times.drop_last());
        let before = after_polls(session, timers, times.drop_last());
        lemma_steps_keep_wf(
            before,
            payload_len,
            FlowControlPolicy { max_wait_frames: 0 },
            timers,
            FlowStatus::Wait,
            0,
            0,
            times.last(),
        );
    }
}

/// While flow control is awaited no frame goes out: however often the
/// session is polled, it has sent what it had sent, and it still waits or
/// has run out of time.
pub proof fn lemma_no_frame_without_flow_control(
    session: SendSession,
    timers: TimerConfig,
    times: Seq<u64>,
)
    requires
        session.state == SendState::AwaitingFlowControl,
    ensures
        after_polls(session, timers, times).bytes_sent == session.bytes_sent,
        after_polls(session, timers, times).frames_sent_in_block == session.frames_sent_in_block,
        after_polls(session, timers, times) == session || after_polls(session, timers, times)
            == session.failed(TransferError::Timeout { timer: Timer::NBs }),
    decreases times.len(),
{
    if times.len() > 0 {
        lemma_no_frame_without_flow_control(session, timers, times.drop_last());
    }
}

/// One flow control frame clears one block: behind a `ClearToSend` with a
/// block size other than zero, however often the session is polled, it
/// sends no more consecutive frames than the block size, and it stops for
/// the next flow control frame when it has sent exactly that many.
pub proof fn lemma_block_is_bounded(
    session: SendSession,
    payload_len: nat,
    timers: TimerConfig,
    times: Seq<u64>,
)
    requires
        session.wf(payload_len),
        session.state == SendState::SendingBlock,
        session.block_size != 0,
        session.frames_sent_in_block == 0,
    ensures
        ({
            let later = after_polls(session, timers, times);
            &&& later.wf(payload_len)
            &&& later.block_size == session.block_size
            &&& later.state != SendState::Idle && later.state != SendState::AwaitingFirstSend
            &&& consecutive_count(later.bytes_sent as nat) - consecutive_count(
                session.bytes_sent as nat,
            ) == later.frames_sent_in_block
            &&& later.frames_sent_in_block <= session.block_size
            &&& later.state == SendState::SendingBlock ==> later.frames_sent_in_block
                < session.block_size
            &&& later.state == SendState::AwaitingFlowControl ==> later.frames_sent_in_block
                == session.block_size
        }),
    decreases times.len(),
{
    if times.len() > 0 {
        lemma_block_is_bounded(session, payload_len, timers, times.drop_last());
        let before = after_polls(session, timers, times.drop_last());
        lemma_steps_keep_wf(
            before,
            payload_len,
            FlowControlPolicy { max_wait_frames: 0 },
            timers,
            FlowStatus::Wait,
            0,
            0,
            times.last(),
        );
        if before.state == SendState::SendingBlock {
            lemma_count_step(before.bytes_sent as nat, payload_len);
        }
    }
}

/// Terminal states: a session that is complete or aborted stays as it is,
/// whenever it is polled and whatever flow control frame arrives. An
/// aborted session is not changed by a transmit failure or by giving it up
/// either; only a new transfer begins anew.
pub proof fn lemma_terminal_states(
    session: SendSession,
    policy: FlowControlPolicy,
    timers: TimerConfig,
    status: FlowStatus,
    block_size: u8,
    separation_time_code: u8,
    now: u64,
)
    requires
        session.state == SendState::Complete || session.state == SendState::Aborted,
    ensures
        session.after_poll(timers, now) == session,
        !session.emits(now),
        session.after_flow_control(policy, timers, status, block_size, separation_time_code, now)
            == session,
        session.state == SendState::Aborted ==> session.after_transmit_failure() == session
            && session.given_up() == session,
{
}

} // verus!

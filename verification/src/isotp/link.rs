//! The link to one peer: one send path and one receive path under one
//! configuration.

use crate::isotp::codec::{decode, spec_decode};
use crate::isotp::config::TransferConfig;
use crate::isotp::error::TransferError;
use crate::isotp::frame::{LinkFrame, LinkFrameView, Pdu, PduView, MAX_TRANSFER_LENGTH};
use crate::isotp::reassembler::{
    Reassembler, ReceiveEvent, ReceiveEventView, ReceiveSessionView, DEFAULT_RECEIVE_CAPACITY,
};
use crate::isotp::segmentation::spec_segment;
use crate::isotp::segmenter::{Segmenter, SendSession};
use crate::isotp::timing::TimerConfig;
use vstd::prelude::*;

verus! {

/// Collects the settings of a link, and builds it.
#[derive(Clone, Copy, Debug)]
pub struct IsoTPBuilder {
    pub config: TransferConfig,
    pub timers: TimerConfig,
    pub capacity: usize,
}

impl IsoTPBuilder {
    /// The settings of a link to the peer of `config`, with every timer at
    /// the upper bound of ISO 15765-2 and room for payloads of up to 1024
    /// bytes.
    pub fn new(config: TransferConfig) -> (builder: IsoTPBuilder)
        ensures
            builder.config == config,
            builder.timers == TimerConfig::iso_default(),
            builder.capacity == DEFAULT_RECEIVE_CAPACITY,
    {
        IsoTPBuilder { config, timers: TimerConfig::default(), capacity: DEFAULT_RECEIVE_CAPACITY }
    }

    /// The same settings with the timer durations `timers`.
    pub fn timers(self, timers: TimerConfig) -> (builder: IsoTPBuilder)
        ensures
            builder == (IsoTPBuilder { timers, ..self }),
    {
        IsoTPBuilder { timers, ..self }
    }

    /// The same settings with room for payloads of up to `capacity` bytes.
    pub fn receive_capacity(self, capacity: usize) -> (builder: IsoTPBuilder)
        ensures
            builder == (IsoTPBuilder { capacity, ..self }),
    {
        IsoTPBuilder { capacity, ..self }
    }

    /// The link with these settings and a fresh pair of sessions.
    pub fn build(self) -> (link: IsoTP)
        requires
            self.config.wf(),
        ensures
            link.wf(),
            link.spec_config() == self.config,
            link.spec_timers() == self.timers,
            link.spec_receive_capacity() == self.capacity,
            link.sender.payload@ == Seq::<u8>::empty(),
            link.sender.session == SendSession::spec_idle(),
            link.receiver.session@ == ReceiveSessionView::idle(),
    {
        IsoTP {
            sender: Segmenter::new(self.config, self.timers),
            receiver: Reassembler::new(self.config, self.timers, self.capacity),
        }
    }
}

/// The link to one peer. It holds exactly one send session and one receive
/// session, which share nothing but the configuration.
#[derive(Debug)]
pub struct IsoTP {
    pub sender: Segmenter,
    pub receiver: Reassembler,
}

impl IsoTP {
    /// Both paths are well formed and run under the same settings.
    pub open spec fn wf(&self) -> bool {
        &&& self.sender.wf()
        &&& self.receiver.wf()
        &&& self.sender.config == self.receiver.config
        &&& self.sender.timers == self.receiver.timers
    }

    /// The configuration of the link.
    pub open spec fn spec_config(&self) -> TransferConfig {
        self.receiver.config
    }

    /// The timer durations of the link.
    pub open spec fn spec_timers(&self) -> TimerConfig {
        self.receiver.timers
    }

    /// The longest payload that the link accepts.
    pub open spec fn spec_receive_capacity(&self) -> usize {
        self.receiver.capacity
    }

    /// The send session after the link frame `frame`, which arrived at time
    /// `now`: a flow control frame is taken by the send path, and no other
    /// frame touches it.
    pub open spec fn sender_after_frame(&self, frame: LinkFrameView, now: u64) -> SendSession {
        match spec_decode(frame) {
            Ok(
                PduView::FlowControl { status, block_size, separation_time_code },
            ) => self.sender.session.after_flow_control(
                self.spec_config().flow_control_policy,
                self.spec_timers(),
                status,
                block_size,
                separation_time_code,
                now,
            ),
            _ => self.sender.session,
        }
    }

    /// The receive session and the event after a flow control frame of the
    /// receive path could not be transmitted.
    pub open spec fn receiver_after_reply_failure(&self) -> (
        ReceiveSessionView,
        ReceiveEventView,
    ) {
        self.receiver.session@.after_transmit_failure()
    }

    /// Nothing but the sessions has changed between `before` and `self`.
    pub open spec fn same_settings(&self, before: &IsoTP) -> bool {
        &&& self.spec_config() == before.spec_config()
        &&& self.spec_timers() == before.spec_timers()
        &&& self.spec_receive_capacity() == before.spec_receive_capacity()
    }

    /// The configuration of the link.
    #[verifier::when_used_as_spec(spec_config)]
    pub fn config(&self) -> (config: TransferConfig)
        ensures
            config == self.spec_config(),
    {
        self.receiver.config
    }

    /// The longest payload that the link accepts.
    #[verifier::when_used_as_spec(spec_receive_capacity)]
    pub fn receive_capacity(&self) -> (capacity: usize)
        ensures
            capacity == self.spec_receive_capacity(),
    {
        self.receiver.capacity
    }

    /// Starts sending `payload` to the peer at time `now`, in place of
    /// whatever the send session held, and returns the frame to transmit
    /// first. A payload of more than 4095 bytes is refused with
    /// `LengthOutOfRange` before anything is sent.
    ///
    /// See [`Segmenter::start`].
    pub fn send(&mut self, payload: Vec<u8>, now: u64) -> (r: Result<LinkFrame, TransferError>)
        requires
            old(self).wf(),
        ensures
            final(self).wf(),
            final(self).same_settings(old(self)),
            final(self).receiver.session@ == old(self).receiver.session@,
            r is Ok <==> payload@.len() <= MAX_TRANSFER_LENGTH,
            r matches Ok(frame) ==> {
                &&& final(self).sender.payload@ == payload@
                &&& final(self).sender.session == SendSession::queued(
                    payload@.len() as u16,
                ).after_first_frame(old(self).spec_timers(), now)
                &&& frame@ == spec_segment(payload@, old(self).spec_config())[0]
            },
            r matches Err(e) ==> {
                &&& e == TransferError::LengthOutOfRange
                &&& final(self).sender.payload@ == old(self).sender.payload@
                &&& final(self).sender.session == old(self).sender.session
            },
    {
        let config = self.receiver.config;
        self.sender.start(payload, config, now)
    }

    /// Takes the link frame `frame`, which arrived from the peer at time
    /// `now`. A flow control frame goes to the send path; every other
    /// frame goes to the receive path, whose event is returned. A frame
    /// that does not decode is reported and changes nothing.
    pub fn on_frame(&mut self, frame: &LinkFrame, now: u64) -> (event: ReceiveEvent)
        requires
            old(self).wf(),
        ensures
            final(self).wf(),
            final(self).same_settings(old(self)),
            final(self).sender.payload@ == old(self).sender.payload@,
            (final(self).receiver.session@, event@) == old(self).receiver.session@.after_frame(
                frame@,
                old(self).spec_config(),
                old(self).spec_timers(),
                old(self).spec_receive_capacity(),
                now,
            ),
            final(self).sender.session == old(self).sender_after_frame(frame@, now),
    {
        match decode(frame) {
            Ok(Pdu::FlowControl { status, block_size, separation_time_code }) => {
                self.sender.on_flow_control(status, block_size, separation_time_code, now);
                ReceiveEvent::Nothing
            },
            Ok(pdu) => self.receiver.on_pdu(pdu, now),
            Err(e) => ReceiveEvent::Failed(TransferError::from(e)),
        }
    }

    /// Lets both sessions act at time `now`: returns the frame that the
    /// send path wants transmitted, if one is due, and the event of the
    /// receive path.
    ///
    /// See [`Segmenter::poll`] and [`Reassembler::poll`].
    pub fn poll(&mut self, now: u64) -> (r: (Option<LinkFrame>, ReceiveEvent))
        requires
            old(self).wf(),
        ensures
            final(self).wf(),
            final(self).same_settings(old(self)),
            final(self).sender.payload@ == old(self).sender.payload@,
            final(self).sender.session == old(self).sender.session.after_poll(
                old(self).spec_timers(),
                now,
            ),
            r.0 is Some <==> old(self).sender.session.emits(now),
            r.0 matches Some(f) ==> f@ == old(self).sender.next_frame(),
            (final(self).receiver.session@, r.1@) == old(self).receiver.session@.after_poll(now),
    {
        let frame = self.sender.poll(now);
        let event = self.receiver.poll(now);
        (frame, event)
    }

    /// Reports to the send path that the last frame it handed out could
    /// not be transmitted.
    ///
    /// See [`Segmenter::on_transmit_failure`].
    pub fn on_transmit_failure(&mut self)
        requires
            old(self).wf(),
        ensures
            final(self).wf(),
            final(self).same_settings(old(self)),
            final(self).sender.payload@ == old(self).sender.payload@,
            final(self).sender.session == old(self).sender.session.after_transmit_failure(),
            final(self).receiver.session@ == old(self).receiver.session@,
    {
        self.sender.on_transmit_failure();
    }

    /// Reports to the receive path that the flow control frame it handed
    /// out last could not be transmitted, and returns its event.
    ///
    /// See [`Reassembler::on_transmit_failure`].
    pub fn on_reply_failure(&mut self) -> (event: ReceiveEvent)
        requires
            old(self).wf(),
        ensures
            final(self).wf(),
            final(self).same_settings(old(self)),
            final(self).sender.payload@ == old(self).sender.payload@,
            final(self).sender.session == old(self).sender.session,
            (final(self).receiver.session@, event@) == old(self).receiver_after_reply_failure(),
    {
        self.receiver.on_transmit_failure()
    }

    /// Gives up both the transfer that is being sent and the one that is
    /// being received. Doing so again changes nothing.
    pub fn abort(&mut self)
        requires
            old(self).wf(),
        ensures
            final(self).wf(),
            final(self).same_settings(old(self)),
            final(self).sender.payload@ == old(self).sender.payload@,
            final(self).sender.session == old(self).sender.session.given_up(),
            final(self).receiver.session@ == old(self).receiver.session@.given_up(),
    {
        self.sender.abort();
        self.receiver.abort();
    }
}

} // verus!

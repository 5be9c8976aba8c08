//! The link frame, and the four kinds of protocol frame that it carries.

use crate::isotp::config::MAX_ID;
use vstd::prelude::*;

verus! {

/// The largest number of data bytes in a link frame.
pub const MAX_FRAME_DATA: usize = 8;

/// The largest payload that a single frame carries.
pub const MAX_SINGLE_PAYLOAD: usize = 7;

/// The number of payload bytes that a first frame carries.
pub const FIRST_FRAME_PAYLOAD: usize = 6;

/// The largest number of payload bytes that a consecutive frame carries.
pub const MAX_CONSECUTIVE_PAYLOAD: usize = 7;

/// The largest payload of a transfer: what the 12-bit length field of a
/// first frame can announce.
pub const MAX_TRANSFER_LENGTH: usize = 4095;

/// What a link frame holds: an arbitration identifier and up to 8 data
/// bytes.
pub struct LinkFrameView {
    pub id: u32,
    pub data: Seq<u8>,
}

impl LinkFrameView {
    /// The identifier has at most 29 bits, and there are at most 8 data
    /// bytes.
    pub open spec fn wf(self) -> bool {
        self.id <= MAX_ID && self.data.len() <= MAX_FRAME_DATA
    }
}

/// A raw CAN frame, as the CAN driver takes and delivers it. Its contents
/// are fixed when it is made.
#[derive(Debug)]
pub struct LinkFrame {
    id: u32,
    data: Vec<u8>,
}

impl View for LinkFrame {
    type V = LinkFrameView;

    closed spec fn view(&self) -> LinkFrameView {
        LinkFrameView { id: self.id, data: self.data@ }
    }
}

impl LinkFrame {
    #[verifier::type_invariant]
    spec fn inv(&self) -> bool {
        self.id <= MAX_ID && self.data@.len() <= MAX_FRAME_DATA
    }

    /// A frame with the given identifier and data bytes; `None` if the
    /// identifier has more than 29 bits or there are more than 8 bytes.
    pub fn new(id: u32, data: Vec<u8>) -> (frame: Option<LinkFrame>)
        ensures
            frame is Some <==> (LinkFrameView { id, data: data@ }).wf(),
            frame matches Some(f) ==> f@ == (LinkFrameView { id, data: data@ }),
    {
        if id <= MAX_ID && data.len() <= MAX_FRAME_DATA {
            Some(LinkFrame { id, data })
        } else {
            None
        }
    }

    /// The arbitration identifier.
    pub fn id(&self) -> (id: u32)
        ensures
            id == self@.id,
            self@.wf(),
    {
        proof {
            use_type_invariant(self);
        }
        self.id
    }

    /// The data bytes.
    pub fn data(&self) -> (data: &Vec<u8>)
        ensures
            data@ == self@.data,
            self@.wf(),
    {
        proof {
            use_type_invariant(self);
        }
        &self.data
    }
}

impl Clone for LinkFrame {
    fn clone(&self) -> (copy: LinkFrame)
        ensures
            copy@ == self@,
    {
        proof {
            use_type_invariant(self);
        }
        LinkFrame { id: self.id, data: self.data.clone() }
    }
}

/// What a flow control frame tells the sender.
#[derive(Clone, Copy, Debug, PartialEq, Eq, Structural)]
pub enum FlowStatus {
    /// Go on with the next block of consecutive frames.
    ClearToSend,
    /// Send nothing yet; another flow control frame follows.
    Wait,
    /// The receiver cannot take a payload of the announced length.
    Overflow,
}

impl FlowStatus {
    /// The status code in the low nibble of the frame's first byte.
    pub open spec fn spec_code(self) -> u8 {
        match self {
            FlowStatus::ClearToSend => 0,
            FlowStatus::Wait => 1,
            FlowStatus::Overflow => 2,
        }
    }

    /// The status code in the low nibble of the frame's first byte.
    #[verifier::when_used_as_spec(spec_code)]
    pub fn code(self) -> (code: u8)
        ensures
            code == self.spec_code(),
    {
        match self {
            FlowStatus::ClearToSend => 0,
            FlowStatus::Wait => 1,
            FlowStatus::Overflow => 2,
        }
    }

    /// The status that `code` stands for, if any.
    pub fn from_code(code: u8) -> (status: Option<FlowStatus>)
        ensures
            status is Some <==> code <= 2,
            status matches Some(s) ==> s.spec_code() == code,
    {
        match code {
            0 => Some(FlowStatus::ClearToSend),
            1 => Some(FlowStatus::Wait),
            2 => Some(FlowStatus::Overflow),
            _ => None,
        }
    }
}

/// A protocol frame, with its payload as a sequence of bytes: what a
/// [`Pdu`] stands for in contracts.
pub enum PduView {
    SingleFrame { length: u8, payload: Seq<u8> },
    FirstFrame { total_length: u16, payload_prefix: Seq<u8> },
    ConsecutiveFrame { sequence_number: u8, payload_chunk: Seq<u8> },
    FlowControl { status: FlowStatus, block_size: u8, separation_time_code: u8 },
}

impl PduView {
    /// Every field is in the range that its place in the frame allows.
    pub open spec fn wf(self) -> bool {
        match self {
            PduView::SingleFrame { length, payload } => length <= MAX_SINGLE_PAYLOAD
                && payload.len() == length,
            PduView::FirstFrame { total_length, payload_prefix } => total_length
                <= MAX_TRANSFER_LENGTH && payload_prefix.len() == FIRST_FRAME_PAYLOAD,
            PduView::ConsecutiveFrame { sequence_number, payload_chunk } => sequence_number <= 15
                && payload_chunk.len() <= MAX_CONSECUTIVE_PAYLOAD,
            PduView::FlowControl { .. } => true,
        }
    }
}

/// A protocol frame: one of the four kinds that the first nibble of a link
/// frame tells apart.
#[derive(Debug)]
pub enum Pdu {
    /// A whole payload of at most 7 bytes.
    SingleFrame { length: u8, payload: Vec<u8> },
    /// The announcement of a longer payload, with its first 6 bytes.
    FirstFrame { total_length: u16, payload_prefix: Vec<u8> },
    /// The next up to 7 bytes of a longer payload.
    ConsecutiveFrame { sequence_number: u8, payload_chunk: Vec<u8> },
    /// The receiver's answer to a first frame or to a finished block.
    FlowControl { status: FlowStatus, block_size: u8, separation_time_code: u8 },
}

impl View for Pdu {
    type V = PduView;

    open spec fn view(&self) -> PduView {
        match *self {
            Pdu::SingleFrame { length, payload } => PduView::SingleFrame {
                length,
                payload: payload@,
            },
            Pdu::FirstFrame { total_length, payload_prefix } => PduView::FirstFrame {
                total_length,
                payload_prefix: payload_prefix@,
            },
            Pdu::ConsecutiveFrame { sequence_number, payload_chunk } => PduView::ConsecutiveFrame {
                sequence_number,
                payload_chunk: payload_chunk@,
            },
            Pdu::FlowControl { status, block_size, separation_time_code } => PduView::FlowControl {
                status,
                block_size,
                separation_time_code,
            },
        }
    }
}

impl Pdu {
    /// Every field is in the range that its place in the frame allows.
    pub open spec fn wf(&self) -> bool {
        self@.wf()
    }
}

} // verus!

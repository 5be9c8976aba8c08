//! The failures that a transfer can end in.

use crate::isotp::timing::Timer;
use vstd::prelude::*;

verus! {

/// Why a link frame could not be read as a protocol frame.
#[derive(Clone, Copy, Debug, PartialEq, Eq, Structural)]
pub enum DecodeError {
    /// The leading byte names none of the four frame kinds.
    UnknownPci,
    /// The frame is shorter than its leading byte requires.
    Truncated,
}

/// Why a transfer failed. None of these is retried by the protocol itself.
#[derive(Clone, Copy, Debug, PartialEq, Eq, Structural)]
pub enum TransferError {
    /// The named timer ran out.
    Timeout { timer: Timer },
    /// The declared length exceeds the receive capacity.
    Overflow,
    /// A consecutive frame arrived out of order.
    UnexpectedSequenceNumber,
    /// A received frame names none of the four frame kinds.
    UnknownPci,
    /// A received frame is shorter than its leading byte requires.
    Truncated,
    /// The CAN driver reported that it could not transmit a frame.
    TransmitFailure,
    /// The peer refused the transfer, or asked to wait too often.
    PeerAborted,
    /// The payload is longer than the protocol can carry.
    LengthOutOfRange,
}

impl DecodeError {
    /// The transfer error that stands for this decode error.
    pub open spec fn as_transfer_error(self) -> TransferError {
        match self {
            DecodeError::UnknownPci => TransferError::UnknownPci,
            DecodeError::Truncated => TransferError::Truncated,
        }
    }
}

impl From<DecodeError> for TransferError {
    fn from(error: DecodeError) -> (r: TransferError) {
        match error {
            DecodeError::UnknownPci => TransferError::UnknownPci,
            DecodeError::Truncated => TransferError::Truncated,
        }
    }
}

impl vstd::std_specs::convert::FromSpecImpl<DecodeError> for TransferError {
    open spec fn obeys_from_spec() -> bool {
        true
    }

    open spec fn from_spec(error: DecodeError) -> TransferError {
        error.as_transfer_error()
    }
}

} // verus!

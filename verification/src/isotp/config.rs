//! The settings of a transfer.

use vstd::prelude::*;

verus! {

/// The largest arbitration identifier: 29 bits.
pub const MAX_ID: u32 = 0x1FFF_FFFF;

/// How the sender treats flow control frames that ask it to wait.
#[derive(Clone, Copy, Debug, PartialEq, Eq, Structural)]
pub struct FlowControlPolicy {
    /// How many `Wait` frames in a row the sender accepts. One more aborts
    /// the transfer.
    pub max_wait_frames: u8,
}

/// The settings of the transfers with one peer. A session copies them when
/// it starts, so they cannot change under a transfer in flight.
#[derive(Clone, Copy, Debug, PartialEq, Eq, Structural)]
pub struct TransferConfig {
    /// The arbitration identifier that frames to the peer carry.
    pub peer_id: u32,
    /// Whether frames shorter than 8 bytes are filled up to 8 bytes.
    pub use_padding: bool,
    /// The byte that fills them.
    pub padding_value: u8,
    /// The block size that the receiver advertises: how many consecutive
    /// frames it takes before the sender must wait for the next flow
    /// control frame. Zero means no limit.
    pub block_size: u8,
    /// The separation time code that the receiver advertises.
    pub separation_time: u8,
    /// The sender's limit on `Wait` frames.
    pub flow_control_policy: FlowControlPolicy,
}

impl TransferConfig {
    /// The identifier fits the 29 bits of an extended CAN identifier.
    pub open spec fn wf(self) -> bool {
        self.peer_id <= MAX_ID
    }

    /// A configuration for `peer_id` without padding, without a block size
    /// limit or separation time, that accepts no `Wait` frame. `None` if
    /// `peer_id` is no arbitration identifier.
    pub fn new(peer_id: u32) -> (config: Option<TransferConfig>)
        ensures
            config is Some <==> peer_id <= MAX_ID,
            config matches Some(c) ==> c == (TransferConfig {
                peer_id,
                use_padding: false,
                padding_value: 0,
                block_size: 0,
                separation_time: 0,
                flow_control_policy: FlowControlPolicy { max_wait_frames: 0 },
            }),
    {
        if peer_id <= MAX_ID {
            Some(
                TransferConfig {
                    peer_id,
                    use_padding: false,
                    padding_value: 0,
                    block_size: 0,
                    separation_time: 0,
                    flow_control_policy: FlowControlPolicy { max_wait_frames: 0 },
                },
            )
        } else {
            None
        }
    }
}

} // verus!

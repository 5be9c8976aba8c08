//! ISO-TP (ISO 15765-2): a transport protocol that carries payloads of up
//! to 4095 bytes over CAN's 8-byte frames.
//!
//! The modules, leaves first: [`error`], [`timing`] and [`config`] hold the
//! failures, the timers and the transfer settings; [`frame`] the link frame
//! and the four kinds of protocol frame; [`codec`] the mapping between the
//! two; [`segmentation`] the rule by which a payload is cut into frames;
//! [`segmenter`] the send path; [`reassembler`] the receive path;
//! [`transfer`] a whole transfer from payload to frames and back; and
//! [`link`] both paths to one peer under one configuration.
//!
//! Nothing here transmits or waits. Every step takes the current time and
//! returns at once with the frame to transmit, if any; the caller owns the
//! CAN driver and the clock.

pub mod error;
pub mod timing;
pub mod config;
pub mod frame;
pub mod codec;
pub mod segmentation;
pub mod segmenter;
pub mod reassembler;
pub mod transfer;
pub mod link;

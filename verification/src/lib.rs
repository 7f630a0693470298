//! A user-space TCP endpoint: the per-flow state machine, the send/receive
//! sequence-space model with 32-bit wraparound arithmetic, the segment
//! acceptability test of RFC 793, and the connection table that demultiplexes
//! inbound IPv4 frames to per-flow state.
//!
//! Parsing and serialising the IPv4/TCP headers themselves (including
//! checksum computation) is delegated to an external header codec behind the
//! trusted boundary in `codec`; everything else is verified.

pub mod codec;
pub mod header;
pub mod sequence;
pub mod table;
pub mod tcp;
pub mod validation;

//! Send and receive sequence spaces (RFC 793, p. 20).

use vstd::prelude::*;

verus! {

/// Send Sequence Space (RFC 793, p. 20)
///
/// ```text
///            1         2          3          4
///       ----------|----------|----------|----------
///              SND.UNA    SND.NXT    SND.UNA
///                                   +SND.WND
///
/// 1 - old sequence numbers which have been acknowledged
/// 2 - sequence numbers of unacknowledged data
/// 3 - sequence numbers allowed for new data transmission
/// 4 - future sequence numbers which are not yet allowed
/// ```
#[derive(Clone, Copy, Debug)]
pub struct SendSequence {
    /// oldest unacknowledged sequence number
    pub una: u32,
    /// next sequence number to be sent
    pub nxt: u32,
    /// send window (the window advertised by the peer)
    pub wnd: u16,
    /// send urgent pointer
    pub up: u32,
    /// segment sequence number used for last window update
    pub wl1: u32,
    /// segment acknowledgment number used for last window update
    pub wl2: u32,
    /// initial send sequence number
    pub iss: u32,
}

/// Receive Sequence Space (RFC 793, p. 20)
///
/// ```text
///     1          2          3
/// ----------|----------|----------
///        RCV.NXT    RCV.NXT
///                  +RCV.WND
/// ```
#[derive(Clone, Copy, Debug)]
pub struct ReceiveSequence {
    /// next sequence number expected on an incoming segment; the left or
    /// lower edge of the receive window
    pub nxt: u32,
    /// receive window (locally advertised)
    pub wnd: u16,
    /// receive urgent pointer
    pub up: u16,
    /// initial receive sequence number
    pub irs: u32,
}

} // verus!

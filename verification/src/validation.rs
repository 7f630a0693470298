//! The segment acceptability test of RFC 793 §3.3: window membership under
//! modulo-2^32 sequence arithmetic, the ACK acceptability check, and the
//! four-way acceptability decision over a segment's length and the receive
//! window.

use vstd::prelude::*;

use crate::codec::TcpFields;
use crate::sequence::{ReceiveSequence, SendSequence};

verus! {

/// `x` lies in the half-open window `[start, end)` of the circular 32-bit
/// sequence space: when the window does not wrap (`start < end`) this is
/// `start <= x < end`; when it wraps past 2^32 - 1 it is `start <= x`
/// or `x < end`.
pub open spec fn spec_in_window_start_incl(start: u32, x: u32, end: u32) -> bool {
    if start < end {
        start <= x < end
    } else {
        start <= x || x < end
    }
}

/// `x` lies in the half-open window `(start, end]` of the circular 32-bit
/// sequence space.  RFC 793 states the ACK acceptability test end-inclusive
/// and the sequence-in-window test start-inclusive; the two variants must
/// not be confused, or boundary segments are misclassified.
pub open spec fn spec_in_window_end_incl(start: u32, x: u32, end: u32) -> bool {
    if start < end {
        start < x <= end
    } else {
        start < x || x <= end
    }
}

/// `SND.UNA < SEG.ACK =< SND.NXT`, under wraparound.
pub open spec fn spec_acceptable_ack(snd_una: u32, seg_ackn: u32, snd_nxt: u32) -> bool {
    spec_in_window_end_incl(snd_una, seg_ackn, snd_nxt)
}

/// The length a segment occupies in sequence space: its payload plus one
/// for SYN and one for FIN.
pub open spec fn spec_segment_len(payload_len: nat, syn: bool, fin: bool) -> nat {
    payload_len + (if syn { 1nat } else { 0nat }) + (if fin { 1nat } else { 0nat })
}

/// RFC 793 §3.3 segment acceptability, by case on the segment length and
/// the receive window:
/// - zero length, zero window: acceptable iff `SEG.SEQ == RCV.NXT`;
/// - zero length, window open: acceptable iff `SEG.SEQ` is in the receive
///   window `[RCV.NXT, RCV.NXT + RCV.WND)`;
/// - data but zero window: never acceptable;
/// - data and window open: the ACK must be acceptable and either edge of
///   the segment's sequence range must fall in the receive window.
///
/// All additions wrap silently at 2^32.
pub open spec fn spec_segment_acceptable(
    payload_len: nat,
    syn: bool,
    fin: bool,
    seg_seq: u32,
    seg_ackn: u32,
    snd: SendSequence,
    rcv: ReceiveSequence,
) -> bool {
    let seg_len = spec_segment_len(payload_len, syn, fin);
    let wnd_end = rcv.nxt.wrapping_add(rcv.wnd as u32);
    if seg_len == 0 && rcv.wnd == 0 {
        seg_seq == rcv.nxt
    } else if seg_len == 0 {
        spec_in_window_start_incl(rcv.nxt, seg_seq, wnd_end)
    } else if rcv.wnd == 0 {
        false
    } else {
        spec_acceptable_ack(snd.una, seg_ackn, snd.nxt) && {
            let last = seg_seq.wrapping_add(seg_len as u32).wrapping_sub(1);
            spec_in_window_start_incl(rcv.nxt, seg_seq, wnd_end)
                || spec_in_window_start_incl(rcv.nxt, last, wnd_end)
        }
    }
}

/// Membership in `(start, end]` of the circular sequence space.
pub fn is_included_in_wrapped_boundary_end_incl(start: u32, x: u32, end: u32) -> (r: bool)
    ensures
        r == spec_in_window_end_incl(start, x, end),
{
    if start < end {
        start < x && x <= end
    } else {
        start < x || x <= end
    }
}

/// Membership in `[start, end)` of the circular sequence space.
pub fn is_included_in_wrapped_boundary_start_incl(start: u32, x: u32, end: u32) -> (r: bool)
    ensures
        r == spec_in_window_start_incl(start, x, end),
{
    if start < end {
        start <= x && x < end
    } else {
        start <= x || x < end
    }
}

/// `SEG.SEQ = RCV.NXT`: the only acceptable form of a zero-length segment
/// when the receive window is closed (a zero-window probe).
pub fn check_zero_len_packet_zero_wnd(seg_seq: u32, rcv_nxt: u32) -> (r: bool)
    ensures
        r == (seg_seq == rcv_nxt),
{
    seg_seq == rcv_nxt
}

/// `RCV.NXT =< SEG.SEQ < RCV.NXT+RCV.WND`
pub fn check_zero_len_packet_nonzero_wnd(seg_seq: u32, rcv_nxt: u32, rcv_wnd: u32) -> (r: bool)
    ensures
        r == spec_in_window_start_incl(rcv_nxt, seg_seq, rcv_nxt.wrapping_add(rcv_wnd)),
{
    is_included_in_wrapped_boundary_start_incl(rcv_nxt, seg_seq, rcv_nxt.wrapping_add(rcv_wnd))
}

/// `RCV.NXT =< SEG.SEQ < RCV.NXT+RCV.WND`
/// or
/// `RCV.NXT =< SEG.SEQ+SEG.LEN-1 < RCV.NXT+RCV.WND`
pub fn check_both_ends_inside_window(
    seg_seq: u32,
    seg_len: u32,
    rcv_nxt: u32,
    rcv_wnd: u32,
) -> (r: bool)
    ensures
        r == (spec_in_window_start_incl(rcv_nxt, seg_seq, rcv_nxt.wrapping_add(rcv_wnd))
            || spec_in_window_start_incl(
            rcv_nxt,
            seg_seq.wrapping_add(seg_len).wrapping_sub(1),
            rcv_nxt.wrapping_add(rcv_wnd),
        )),
{
    is_included_in_wrapped_boundary_start_incl(rcv_nxt, seg_seq, rcv_nxt.wrapping_add(rcv_wnd))
        || is_included_in_wrapped_boundary_start_incl(
        rcv_nxt,
        seg_seq.wrapping_add(seg_len).wrapping_sub(1),
        rcv_nxt.wrapping_add(rcv_wnd),
    )
}

/// `SND.UNA < SEG.ACK =< SND.NXT`
pub fn acceptable_ack(snd_una: u32, seg_ackn: u32, snd_nxt: u32) -> (r: bool)
    ensures
        r == spec_acceptable_ack(snd_una, seg_ackn, snd_nxt),
{
    is_included_in_wrapped_boundary_end_incl(snd_una, seg_ackn, snd_nxt)
}

/// For every window with distinct edges, the window's start lies in
/// `[start, end)` and its end does not — whether or not the window wraps.
pub proof fn lemma_start_incl_edges(start: u32, end: u32)
    requires
        start != end,
    ensures
        spec_in_window_start_incl(start, start, end),
        !spec_in_window_start_incl(start, end, end),
{
}

/// An ACK that merely repeats `SND.UNA` acknowledges nothing new and is
/// not acceptable; one that covers everything sent so far (`SND.NXT`) is —
/// for any pair with `una != nxt`, wraparound included.
pub proof fn lemma_acceptable_ack_edges(una: u32, nxt: u32)
    requires
        una != nxt,
    ensures
        !spec_acceptable_ack(una, una, nxt),
        spec_acceptable_ack(una, nxt, nxt),
{
}

/// A zero-length segment offered to a closed receive window is acceptable
/// exactly when its sequence number is `RCV.NXT`; any other value,
/// off-by-one included, is rejected.
pub proof fn lemma_zero_len_zero_wnd_exact(
    seg_seq: u32,
    seg_ackn: u32,
    snd: SendSequence,
    rcv: ReceiveSequence,
)
    requires
        rcv.wnd == 0,
    ensures
        spec_segment_acceptable(0, false, false, seg_seq, seg_ackn, snd, rcv) <==> seg_seq
            == rcv.nxt,
{
}

/// A segment that occupies sequence space is rejected unless its ACK is
/// acceptable *and* one of its edges lies in the receive window: an
/// unacceptable ACK rejects it even when an edge is in window, and edges
/// wholly outside the window reject it even when the ACK alone would pass.
pub proof fn lemma_data_segment_needs_both(
    payload_len: nat,
    syn: bool,
    fin: bool,
    seg_seq: u32,
    seg_ackn: u32,
    snd: SendSequence,
    rcv: ReceiveSequence,
)
    requires
        spec_segment_len(payload_len, syn, fin) > 0,
        !spec_acceptable_ack(snd.una, seg_ackn, snd.nxt) || (!spec_in_window_start_incl(
            rcv.nxt,
            seg_seq,
            rcv.nxt.wrapping_add(rcv.wnd as u32),
        ) && !spec_in_window_start_incl(
            rcv.nxt,
            seg_seq.wrapping_add(spec_segment_len(payload_len, syn, fin) as u32).wrapping_sub(1),
            rcv.nxt.wrapping_add(rcv.wnd as u32),
        )),
    ensures
        !spec_segment_acceptable(payload_len, syn, fin, seg_seq, seg_ackn, snd, rcv),
{
}

/// The full RFC 793 §3.3 acceptability decision for an inbound segment,
/// given the payload bytes, both sequence spaces, and the parsed TCP
/// header.
pub fn is_packet_valid(
    packet: &[u8],
    snd_seq: &SendSequence,
    rcv_seq: &ReceiveSequence,
    tcph: &TcpFields,
) -> (r: bool)
    requires
        packet@.len() + 2 <= u32::MAX,
    ensures
        r == spec_segment_acceptable(
            packet@.len() as nat,
            tcph.syn,
            tcph.fin,
            tcph.sequence_number,
            tcph.acknowledgment_number,
            *snd_seq,
            *rcv_seq,
        ),
{
    let snd_una = snd_seq.una;
    let snd_nxt = snd_seq.nxt;

    let rcv_nxt = rcv_seq.nxt;
    let rcv_wnd = rcv_seq.wnd as u32;

    let seg_ackn = tcph.acknowledgment_number;
    let seg_seq = tcph.sequence_number;
    let seg_len = {
        let mut plen = packet.len() as u32;
        if tcph.syn {
            plen = plen + 1;
        }
        if tcph.fin {
            plen = plen + 1;
        }
        plen
    };

    if seg_len == 0 && rcv_wnd == 0 {
        check_zero_len_packet_zero_wnd(seg_seq, rcv_nxt)
    } else if seg_len == 0 {
        check_zero_len_packet_nonzero_wnd(seg_seq, rcv_nxt, rcv_wnd)
    } else if rcv_wnd == 0 {
        false
    } else {
        acceptable_ack(snd_una, seg_ackn, snd_nxt)
            && check_both_ends_inside_window(seg_seq, seg_len, rcv_nxt, rcv_wnd)
    }
}

} // verus!

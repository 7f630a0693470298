//! The per-flow TCP state machine (RFC 793, p. 23): connection creation on
//! an inbound SYN, the pre-synchronisation reset rule, segment validation,
//! and the segment-driven transitions between the eight states.

use vstd::prelude::*;

use crate::codec::{Ipv4Fields, TcpFields, HEADER_LEN, TCP_PROTOCOL};
use crate::header::{spec_tcp_segment, Ipv4HeaderBuilder, TcpHeaderBuilder};
use crate::sequence::{ReceiveSequence, SendSequence};
use crate::validation::{
    acceptable_ack, is_packet_valid, spec_acceptable_ack, spec_segment_acceptable,
};

verus! {

/// The receive window this endpoint advertises on every connection.
pub const LOCAL_WINDOW: u16 = 1024;

/// The time-to-live of every outbound IPv4 header.
pub const LOCAL_TTL: u8 = 64;

/// The connection states.  `Closed` is terminal.
#[derive(Clone, Copy, Debug, PartialEq, Eq, Structural)]
pub enum State {
    SynRcvd,
    Established,
    FinWait1,
    FinWait2,
    CloseWait,
    LastAck,
    Closing,
    Closed,
}

/// A connection is synchronized in every state but `SynRcvd`.
pub open spec fn spec_is_synchronized(s: State) -> bool {
    !(s is SynRcvd)
}

impl State {
    pub fn is_synchronized(&self) -> (r: bool)
        ensures
            r == spec_is_synchronized(*self),
    {
        match self {
            State::SynRcvd => false,
            _ => true,
        }
    }
}

/// How the engine refuses an inbound segment or a local request: a
/// distinguishable protocol error, never a crash.  The dispatch loop drops
/// the offending segment and keeps the rest of the table operating.
#[derive(Clone, Copy, Debug, PartialEq, Eq, Structural)]
pub enum TcpError {
    /// A non-SYN segment arrived for an unknown flow; no connection is
    /// created.
    NotSyn,
    /// A state that demands an ACK (`SynRcvd`, `LastAck`, `Closing`) saw a
    /// segment without one.
    AckExpected,
    /// `FinWait1` saw something other than an empty FIN.
    UnexpectedSegment,
    /// An inbound segment reached a state (`CloseWait`, `Closed`) whose
    /// inbound transitions are not modelled; processing of that segment is
    /// aborted.
    UnhandledState,
    /// A local close was requested in a state that cannot close.
    CannotClose,
}

/// One outbound segment: the IPv4 header and the TCP header it carries.
/// The engine never sends payload bytes, so none are recorded.
#[derive(Clone, Copy, Debug, PartialEq, Eq, Structural)]
pub struct Segment {
    pub ip: Ipv4Fields,
    pub tcp: TcpFields,
}

/// One TCP flow: its state, both sequence spaces, and the templates for
/// the headers of every further segment it emits.
#[derive(Clone, Copy, Debug)]
pub struct Connection {
    pub state: State,
    pub snd_seq: SendSequence,
    pub rcv_seq: ReceiveSequence,
    pub tcph_builder: TcpHeaderBuilder,
    pub iph_builder: Ipv4HeaderBuilder,
}

/// The IPv4 header of any segment this connection emits: its template's
/// fixed fields around a payload of exactly one option-less TCP header.
pub open spec fn spec_out_ip(c: Connection) -> Ipv4Fields {
    Ipv4Fields {
        source: c.iph_builder.source,
        destination: c.iph_builder.destination,
        ttl: c.iph_builder.ttl,
        protocol: c.iph_builder.protocol,
        payload_len: HEADER_LEN,
    }
}

/// The RST this connection emits: sequence and acknowledgment numbers at
/// their defaults, only the RST flag set.
pub open spec fn spec_rst_segment(c: Connection) -> Segment {
    Segment {
        ip: spec_out_ip(c),
        tcp: spec_tcp_segment(
            c.tcph_builder.source_port,
            c.tcph_builder.destination_port,
            0,
            0,
            false,
            false,
            true,
            false,
            c.tcph_builder.window_size,
            c.iph_builder.source,
            c.iph_builder.destination,
        ),
    }
}

/// The ACK this connection emits: sequence number `SND.NXT`, the given
/// acknowledgment number, only the ACK flag set.
pub open spec fn spec_ack_segment(c: Connection, acknowledgment_number: u32) -> Segment {
    Segment {
        ip: spec_out_ip(c),
        tcp: spec_tcp_segment(
            c.tcph_builder.source_port,
            c.tcph_builder.destination_port,
            c.snd_seq.nxt,
            acknowledgment_number,
            false,
            true,
            false,
            false,
            c.tcph_builder.window_size,
            c.iph_builder.source,
            c.iph_builder.destination,
        ),
    }
}

/// The FIN this connection emits: sequence number `SND.NXT`,
/// acknowledgment number `RCV.NXT`, only the FIN flag set.
pub open spec fn spec_fin_segment(c: Connection) -> Segment {
    Segment {
        ip: spec_out_ip(c),
        tcp: spec_tcp_segment(
            c.tcph_builder.source_port,
            c.tcph_builder.destination_port,
            c.snd_seq.nxt,
            c.rcv_seq.nxt,
            false,
            false,
            false,
            true,
            c.tcph_builder.window_size,
            c.iph_builder.source,
            c.iph_builder.destination,
        ),
    }
}

/// What `Connection::create` returns for an inbound first segment of an
/// unknown flow: for a SYN, the new connection in `SynRcvd` — initial send
/// sequence number 0, `SND.NXT` already advanced past the SYN it answers
/// with, `RCV.NXT` one past the peer's initial sequence number, local
/// window 1024 — together with that SYN+ACK; for anything else, an error
/// and no connection.
pub open spec fn spec_create(rcv_iph: Ipv4Fields, rcv_tcph: TcpFields) -> Result<
    (Connection, Segment),
    TcpError,
> {
    if !rcv_tcph.syn {
        Err(TcpError::NotSyn)
    } else {
        let c = Connection {
            state: State::SynRcvd,
            snd_seq: SendSequence {
                una: 0,
                nxt: 0,
                wnd: rcv_tcph.window_size,
                up: 0,
                wl1: 0,
                wl2: 0,
                iss: 0,
            },
            rcv_seq: ReceiveSequence {
                nxt: rcv_tcph.sequence_number.wrapping_add(1),
                wnd: LOCAL_WINDOW,
                up: 0,
                irs: rcv_tcph.sequence_number,
            },
            tcph_builder: TcpHeaderBuilder {
                source_port: rcv_tcph.destination_port,
                destination_port: rcv_tcph.source_port,
                window_size: LOCAL_WINDOW,
            },
            iph_builder: Ipv4HeaderBuilder {
                ttl: LOCAL_TTL,
                protocol: TCP_PROTOCOL,
                source: rcv_iph.destination,
                destination: rcv_iph.source,
            },
        };
        let syn_ack = Segment {
            ip: spec_out_ip(c),
            tcp: spec_tcp_segment(
                rcv_tcph.destination_port,
                rcv_tcph.source_port,
                0,
                rcv_tcph.sequence_number.wrapping_add(1),
                true,
                true,
                false,
                false,
                LOCAL_WINDOW,
                rcv_iph.destination,
                rcv_iph.source,
            ),
        };
        Ok((
            Connection { snd_seq: SendSequence { nxt: 1, ..c.snd_seq }, ..c },
            syn_ack,
        ))
    }
}

/// One step of the state machine on an inbound segment (RFC 793, p. 23),
/// giving the connection after the step and what the step returns:
/// 1. not synchronized and the ACK not acceptable: emit a RST, change
///    nothing;
/// 2. segment not acceptable: drop it silently, change nothing;
/// 3. otherwise dispatch on the state: `SynRcvd` takes an ACK to
///    `Established`; `Established` ACKs an inbound FIN, advances `RCV.NXT`
///    past it, and moves to `CloseWait`, and ignores anything else;
///    `FinWait1` takes an empty FIN the same way to `Closing`; `LastAck`
///    and `Closing` take an ACK to `Closed`; `FinWait2` awaits a peer FIN
///    that is not modelled further; inbound segments in `CloseWait` and
///    `Closed` are refused as unhandled.
pub open spec fn spec_on_packet(c: Connection, t: TcpFields, payload_len: nat) -> (
    Connection,
    Result<Option<Segment>, TcpError>,
) {
    if !spec_is_synchronized(c.state) && !spec_acceptable_ack(
        c.snd_seq.una,
        t.acknowledgment_number,
        c.snd_seq.nxt,
    ) {
        (c, Ok(Some(spec_rst_segment(c))))
    } else if !spec_segment_acceptable(
        payload_len,
        t.syn,
        t.fin,
        t.sequence_number,
        t.acknowledgment_number,
        c.snd_seq,
        c.rcv_seq,
    ) {
        (c, Ok(None))
    } else {
        match c.state {
            State::SynRcvd => if t.ack {
                (Connection { state: State::Established, ..c }, Ok(None))
            } else {
                (c, Err(TcpError::AckExpected))
            },
            State::Established => if t.fin {
                let fin_ackn = t.sequence_number.wrapping_add(1);
                (
                    Connection {
                        state: State::CloseWait,
                        rcv_seq: ReceiveSequence { nxt: fin_ackn, ..c.rcv_seq },
                        ..c
                    },
                    Ok(Some(spec_ack_segment(c, fin_ackn))),
                )
            } else {
                (c, Ok(None))
            },
            State::FinWait1 => if t.fin && payload_len == 0 {
                let fin_ackn = t.sequence_number.wrapping_add(1);
                (
                    Connection {
                        state: State::Closing,
                        rcv_seq: ReceiveSequence { nxt: fin_ackn, ..c.rcv_seq },
                        ..c
                    },
                    Ok(Some(spec_ack_segment(c, fin_ackn))),
                )
            } else {
                (c, Err(TcpError::UnexpectedSegment))
            },
            State::FinWait2 => (c, Ok(None)),
            State::CloseWait => (c, Err(TcpError::UnhandledState)),
            State::LastAck => if t.ack {
                (Connection { state: State::Closed, ..c }, Ok(None))
            } else {
                (c, Err(TcpError::AckExpected))
            },
            State::Closing => if t.ack {
                (Connection { state: State::Closed, ..c }, Ok(None))
            } else {
                (c, Err(TcpError::AckExpected))
            },
            State::Closed => (c, Err(TcpError::UnhandledState)),
        }
    }
}

/// One local close: in `Established` the connection sends a FIN and waits
/// for its acknowledgment in `FinWait1`; in `CloseWait` it sends its FIN
/// and enters `LastAck`.  The FIN occupies one sequence number, so
/// `SND.NXT` advances by one.  No other state may close.
pub open spec fn spec_close(c: Connection) -> (Connection, Result<Segment, TcpError>) {
    if c.state is Established || c.state is CloseWait {
        let next_state = if c.state is Established {
            State::FinWait1
        } else {
            State::LastAck
        };
        (
            Connection {
                state: next_state,
                snd_seq: SendSequence { nxt: c.snd_seq.nxt.wrapping_add(1), ..c.snd_seq },
                ..c
            },
            Ok(spec_fin_segment(c)),
        )
    } else {
        (c, Err(TcpError::CannotClose))
    }
}

/// Re-delivering a segment the engine has already processed advances no
/// sequence bookkeeping: whatever the first delivery did, a second
/// delivery of the same segment leaves `RCV.NXT` and `SND.NXT` exactly
/// where the first left them.  A processed FIN moves the receive window
/// past itself, so the duplicate is dropped by validation or lands in a
/// state whose arm changes no sequence numbers; a pure ACK repeats its
/// transition at most into `Closed`, which keeps both counters.  The one
/// segment left out is a FIN arriving while the handshake is still
/// incomplete (`SynRcvd`): its FIN is not processed by that delivery, so a
/// re-delivery after the handshake completes is not a duplicate of
/// anything processed.
pub proof fn lemma_duplicate_delivery_no_double_advance(
    c: Connection,
    t: TcpFields,
    payload_len: nat,
)
    requires
        !(c.state is SynRcvd && t.fin),
    ensures
        ({
            let c1 = spec_on_packet(c, t, payload_len).0;
            let c2 = spec_on_packet(c1, t, payload_len).0;
            &&& c2.rcv_seq.nxt == c1.rcv_seq.nxt
            &&& c2.snd_seq.nxt == c1.snd_seq.nxt
        }),
{
}

impl Connection {
    /// Answer the first segment of an unknown flow.  Returns the new
    /// connection and the SYN+ACK to emit, or refuses a non-SYN.
    pub fn create(rcv_iph: &Ipv4Fields, rcv_tcph: &TcpFields) -> (r: Result<
        (Connection, Segment),
        TcpError,
    >)
        ensures
            r == spec_create(*rcv_iph, *rcv_tcph),
    {
        if !rcv_tcph.syn {
            return Err(TcpError::NotSyn);
        }

        let iss: u32 = 0;
        let wnd: u16 = LOCAL_WINDOW;

        // Keep track of what we're sending
        let snd_seq = SendSequence {
            una: iss,
            nxt: iss,
            wnd: rcv_tcph.window_size,
            up: 0,
            wl1: 0,
            wl2: 0,
            iss,
        };

        // Keep track of sender info
        let rcv_seq = ReceiveSequence {
            nxt: rcv_tcph.sequence_number.wrapping_add(1),
            wnd,
            up: 0,
            irs: rcv_tcph.sequence_number,
        };

        // Construct TCP header
        let tcph_builder = TcpHeaderBuilder::new(
            rcv_tcph.destination_port,
            rcv_tcph.source_port,
            wnd,
        );
        let rsp_tcph = tcph_builder.create_syn_ack(iss, rcv_seq.nxt, rcv_iph);

        // Construct IP header
        let iph_builder = Ipv4HeaderBuilder::new(
            rcv_iph.destination,
            rcv_iph.source,
            TCP_PROTOCOL,
            LOCAL_TTL,
        );
        let rsp_iph = iph_builder.build(HEADER_LEN);

        let mut conn = Self {
            state: State::SynRcvd,
            snd_seq,
            rcv_seq,
            tcph_builder,
            iph_builder,
        };
        let seg = conn.send(rsp_tcph, rsp_iph);
        Ok((conn, seg))
    }

    /// Record one outbound segment: a SYN occupies one sequence number and
    /// a FIN occupies one, so each advances `SND.NXT`; the segment itself
    /// goes back to the caller to be serialised and written.
    fn send(&mut self, tcph: TcpFields, iph: Ipv4Fields) -> (r: Segment)
        ensures
            *final(self) == (Connection {
                snd_seq: SendSequence {
                    nxt: old(self).snd_seq.nxt.wrapping_add(if tcph.syn { 1u32 } else { 0u32 })
                        .wrapping_add(if tcph.fin { 1u32 } else { 0u32 }),
                    ..old(self).snd_seq
                },
                ..*old(self)
            }),
            r == (Segment { ip: iph, tcp: tcph }),
    {
        if tcph.syn {
            self.snd_seq.nxt = self.snd_seq.nxt.wrapping_add(1);
        }
        if tcph.fin {
            self.snd_seq.nxt = self.snd_seq.nxt.wrapping_add(1);
        }
        Segment { ip: iph, tcp: tcph }
    }

    fn send_rst(&mut self) -> (r: Segment)
        ensures
            *final(self) == *old(self),
            r == spec_rst_segment(*old(self)),
    {
        let iph = self.iph_builder.build(HEADER_LEN);
        let tcph = self.tcph_builder.create_rst(&iph);
        self.send(tcph, iph)
    }

    fn send_ack(&mut self, acknowledgment_number: u32) -> (r: Segment)
        ensures
            *final(self) == *old(self),
            r == spec_ack_segment(*old(self), acknowledgment_number),
    {
        let iph = self.iph_builder.build(HEADER_LEN);
        let tcph = self.tcph_builder.create_ack(self.snd_seq.nxt, acknowledgment_number, &iph);
        self.send(tcph, iph)
    }

    fn send_fin(&mut self) -> (r: Segment)
        ensures
            *final(self) == (Connection {
                snd_seq: SendSequence {
                    nxt: old(self).snd_seq.nxt.wrapping_add(1),
                    ..old(self).snd_seq
                },
                ..*old(self)
            }),
            r == spec_fin_segment(*old(self)),
    {
        let iph = self.iph_builder.build(HEADER_LEN);
        let tcph = self.tcph_builder.create_fin(self.snd_seq.nxt, self.rcv_seq.nxt, &iph);
        self.send(tcph, iph)
    }

    /// A local close: emit a FIN and move towards `Closed`, per
    /// `spec_close`.
    pub fn close_connection(&mut self) -> (r: Result<Segment, TcpError>)
        ensures
            *final(self) == spec_close(*old(self)).0,
            r == spec_close(*old(self)).1,
    {
        match self.state {
            State::Established => {
                let seg = self.send_fin();
                self.state = State::FinWait1;
                Ok(seg)
            },
            State::CloseWait => {
                let seg = self.send_fin();
                self.state = State::LastAck;
                Ok(seg)
            },
            _ => Err(TcpError::CannotClose),
        }
    }

    /// Process one inbound segment for this flow (RFC 793, p. 23), per
    /// `spec_on_packet`: the connection advances to the step's state and
    /// the step's answer — a segment to emit, nothing, or a protocol
    /// error — is returned.
    pub fn on_packet(&mut self, tcph: &TcpFields, payload: &[u8]) -> (r: Result<
        Option<Segment>,
        TcpError,
    >)
        requires
            payload@.len() + 2 <= u32::MAX,
        ensures
            *final(self) == spec_on_packet(*old(self), *tcph, payload@.len() as nat).0,
            r == spec_on_packet(*old(self), *tcph, payload@.len() as nat).1,
    {
        if !self.state.is_synchronized() && !acceptable_ack(
            self.snd_seq.una,
            tcph.acknowledgment_number,
            self.snd_seq.nxt,
        ) {
            let seg = self.send_rst();
            return Ok(Some(seg));
        }
        if !is_packet_valid(payload, &self.snd_seq, &self.rcv_seq, tcph) {
            return Ok(None);
        }
        match self.state {
            State::SynRcvd => {
                if !tcph.ack {
                    return Err(TcpError::AckExpected);
                }
                self.state = State::Established;
                Ok(None)
            },
            State::Established => {
                if tcph.fin {
                    let fin_ackn = tcph.sequence_number.wrapping_add(1);
                    let seg = self.send_ack(fin_ackn);
                    self.rcv_seq.nxt = fin_ackn;
                    self.state = State::CloseWait;
                    Ok(Some(seg))
                } else {
                    Ok(None)
                }
            },
            State::FinWait1 => {
                if !tcph.fin || payload.len() > 0 {
                    return Err(TcpError::UnexpectedSegment);
                }
                let fin_ackn = tcph.sequence_number.wrapping_add(1);
                let seg = self.send_ack(fin_ackn);
                self.rcv_seq.nxt = fin_ackn;
                self.state = State::Closing;
                Ok(Some(seg))
            },
            State::FinWait2 => Ok(None),
            State::CloseWait => Err(TcpError::UnhandledState),
            State::LastAck => {
                if !tcph.ack {
                    return Err(TcpError::AckExpected);
                }
                self.state = State::Closed;
                Ok(None)
            },
            State::Closing => {
                if !tcph.ack {
                    return Err(TcpError::AckExpected);
                }
                self.state = State::Closed;
                Ok(None)
            },
            State::Closed => Err(TcpError::UnhandledState),
        }
    }
}

} // verus!

//! The connection table and dispatcher: a mapping from flow identity to
//! per-flow state, with unique keys and no ordering guarantee.  Each inbound
//! frame is parsed, filtered to TCP, demultiplexed by its flow key, and
//! routed to an existing connection or offered to `Connection::create`;
//! a connection whose state reaches `Closed` is evicted so the flow key can
//! be reused.

use vstd::prelude::*;

use crate::codec::{
    encode_frame, ipv4_parse, parse_ipv4, parse_tcp, spec_frame_bytes, tcp_parse, Ipv4Fields,
    TcpFields, TCP_PROTOCOL,
};
use crate::tcp::{spec_close, spec_create, spec_on_packet, Connection, Segment, State, TcpError};

verus! {

/// The identity of one flow: both ends' address and port, as seen from the
/// inbound direction (source = peer, destination = this endpoint).  Two
/// segments belong to the same flow iff their quads are equal.
#[derive(Clone, Copy, Debug, PartialEq, Eq, Hash, Structural)]
pub struct Quad {
    pub src_addr: u32,
    pub src_port: u16,
    pub dst_addr: u32,
    pub dst_port: u16,
}

/// The flow key of an inbound segment.
pub open spec fn spec_quad_of(iph: Ipv4Fields, tcph: TcpFields) -> Quad {
    Quad {
        src_addr: iph.source,
        src_port: tcph.source_port,
        dst_addr: iph.destination,
        dst_port: tcph.destination_port,
    }
}

/// Why the dispatcher dropped one inbound frame.  None of these is fatal:
/// the loop goes on with the next frame.
#[derive(Clone, Copy, Debug, PartialEq, Eq, Structural)]
pub enum DispatchError {
    /// The frame does not begin with a well-formed IPv4 header.
    MalformedIp,
    /// The IPv4 payload does not begin with a well-formed TCP header.
    MalformedTcp,
    /// The segment was parsed but the engine refused it.
    Protocol(TcpError),
}

/// No two entries share a flow key.
pub open spec fn seq_keys_unique(s: Seq<(Quad, Connection)>) -> bool {
    forall|i: int, j: int|
        #![trigger s[i], s[j]]
        0 <= i < j < s.len() ==> s[i].0 != s[j].0
}

/// Some entry carries the key `q`.
pub open spec fn seq_has_key(s: Seq<(Quad, Connection)>, q: Quad) -> bool {
    exists|i: int| 0 <= i < s.len() && (#[trigger] s[i]).0 == q
}

/// The connection stored under the key `q`.
pub open spec fn seq_conn_of(s: Seq<(Quad, Connection)>, q: Quad) -> Connection {
    let i = choose|i: int| 0 <= i < s.len() && (#[trigger] s[i]).0 == q;
    s[i].1
}

/// With unique keys, the entry at any index is the one its key finds.
proof fn lemma_key_at(s: Seq<(Quad, Connection)>, k: int)
    requires
        seq_keys_unique(s),
        0 <= k < s.len(),
    ensures
        seq_has_key(s, s[k].0),
        seq_conn_of(s, s[k].0) == s[k].1,
{
    assert(seq_has_key(s, s[k].0));
    let i = choose|i: int| 0 <= i < s.len() && (#[trigger] s[i]).0 == s[k].0;
    if i < k {
        assert(s[i].0 != s[k].0);
    } else if k < i {
        assert(s[k].0 != s[i].0);
    }
}

/// Removing the entry at `i` by swapping the last entry into its place
/// keeps every other key bound to the same connection, drops the key at
/// `i`, and keeps the keys unique.
proof fn lemma_swap_remove_keys(s: Seq<(Quad, Connection)>, i: int)
    requires
        seq_keys_unique(s),
        0 <= i < s.len(),
    ensures
        ({
            let s1 = s.update(i, s.last()).drop_last();
            &&& seq_keys_unique(s1)
            &&& !seq_has_key(s1, s[i].0)
            &&& forall|q: Quad|
                q != s[i].0 ==> #[trigger] seq_has_key(s1, q) == seq_has_key(s, q)
            &&& forall|q: Quad|
                q != s[i].0 && seq_has_key(s, q) ==> #[trigger] seq_conn_of(s1, q) == seq_conn_of(
                    s,
                    q,
                )
        }),
{
    let s1 = s.update(i, s.last()).drop_last();
    let n = s.len() as int;
    assert forall|k: int| 0 <= k < n - 1 implies #[trigger] s1[k] == (if k == i {
        s[n - 1]
    } else {
        s[k]
    }) by {}

    assert forall|k1: int, k2: int|
        #![trigger s1[k1], s1[k2]]
        0 <= k1 < k2 < s1.len() implies s1[k1].0 != s1[k2].0 by {
        if k1 == i {
            assert(s[k2].0 != s[n - 1].0);
        } else if k2 == i {
            assert(s[k1].0 != s[n - 1].0);
        } else {
            assert(s[k1].0 != s[k2].0);
        }
    }

    assert forall|k: int| 0 <= k < s1.len() implies (#[trigger] s1[k]).0 != s[i].0 by {
        if k == i {
            assert(i < n - 1);
            assert(s[i].0 != s[n - 1].0);
        } else {
            assert(s[k].0 != s[i].0);
        }
    }

    assert forall|q: Quad| q != s[i].0 implies #[trigger] seq_has_key(s1, q) == seq_has_key(
        s,
        q,
    ) by {
        if seq_has_key(s1, q) {
            let k = choose|k: int| 0 <= k < s1.len() && (#[trigger] s1[k]).0 == q;
            if k == i {
                assert(s[n - 1].0 == q);
                assert(seq_has_key(s, q));
            } else {
                assert(s[k].0 == q);
                assert(seq_has_key(s, q));
            }
        }
        if seq_has_key(s, q) {
            let k = choose|k: int| 0 <= k < s.len() && (#[trigger] s[k]).0 == q;
            assert(k != i);
            if k == n - 1 {
                assert(i < n - 1);
                assert(s1[i].0 == q);
                assert(seq_has_key(s1, q));
            } else {
                assert(s1[k].0 == q);
                assert(seq_has_key(s1, q));
            }
        }
    }

    assert forall|q: Quad|
        q != s[i].0 && seq_has_key(s, q) implies #[trigger] seq_conn_of(s1, q) == seq_conn_of(
        s,
        q,
    ) by {
        assert(seq_has_key(s1, q));
        let k1 = choose|k: int| 0 <= k < s1.len() && (#[trigger] s1[k]).0 == q;
        lemma_key_at(s1, k1);
        if k1 == i {
            lemma_key_at(s, n - 1);
            assert(s1[k1] == s[n - 1]);
        } else {
            lemma_key_at(s, k1);
        }
    }
}

/// Appending an entry with a fresh key binds that key to its connection
/// and leaves every other key alone.
proof fn lemma_push_keys(s: Seq<(Quad, Connection)>, e: (Quad, Connection))
    requires
        seq_keys_unique(s),
        !seq_has_key(s, e.0),
    ensures
        ({
            let s2 = s.push(e);
            &&& seq_keys_unique(s2)
            &&& seq_has_key(s2, e.0)
            &&& seq_conn_of(s2, e.0) == e.1
            &&& forall|q: Quad|
                q != e.0 ==> #[trigger] seq_has_key(s2, q) == seq_has_key(s, q)
            &&& forall|q: Quad|
                q != e.0 && seq_has_key(s, q) ==> #[trigger] seq_conn_of(s2, q) == seq_conn_of(
                    s,
                    q,
                )
        }),
{
    let s2 = s.push(e);
    let n = s.len() as int;
    assert forall|k: int| 0 <= k < n implies (#[trigger] s2[k]) == s[k] by {}
    assert(s2[n] == e);

    assert forall|k1: int, k2: int|
        #![trigger s2[k1], s2[k2]]
        0 <= k1 < k2 < s2.len() implies s2[k1].0 != s2[k2].0 by {
        if k2 == n {
            assert(s[k1].0 != e.0);
        } else {
            assert(s[k1].0 != s[k2].0);
        }
    }

    lemma_key_at(s2, n);

    assert forall|q: Quad| q != e.0 implies #[trigger] seq_has_key(s2, q) == seq_has_key(
        s,
        q,
    ) by {
        if seq_has_key(s2, q) {
            let k = choose|k: int| 0 <= k < s2.len() && (#[trigger] s2[k]).0 == q;
            assert(k != n);
            assert(s[k].0 == q);
            assert(seq_has_key(s, q));
        }
        if seq_has_key(s, q) {
            let k = choose|k: int| 0 <= k < s.len() && (#[trigger] s[k]).0 == q;
            assert(s2[k].0 == q);
            assert(seq_has_key(s2, q));
        }
    }

    assert forall|q: Quad|
        q != e.0 && seq_has_key(s, q) implies #[trigger] seq_conn_of(s2, q) == seq_conn_of(
        s,
        q,
    ) by {
        let k = choose|k: int| 0 <= k < s.len() && (#[trigger] s[k]).0 == q;
        lemma_key_at(s, k);
        lemma_key_at(s2, k);
    }
}

/// The flow table: a set of connections with pairwise distinct flow keys.
pub struct ConnectionTable {
    pub entries: Vec<(Quad, Connection)>,
}

/// What one inbound segment returns, given the table it meets: an existing
/// connection answers with its state-machine step; an unknown flow is
/// offered to `Connection::create`, whose SYN+ACK (or refusal) is passed
/// through.
pub open spec fn spec_segment_result(
    pre: ConnectionTable,
    iph: Ipv4Fields,
    tcph: TcpFields,
    payload_len: nat,
) -> Result<Option<Segment>, TcpError> {
    let q = spec_quad_of(iph, tcph);
    if pre.spec_contains(q) {
        spec_on_packet(pre.spec_conn(q), tcph, payload_len).1
    } else {
        match spec_create(iph, tcph) {
            Ok(cs) => Ok(Some(cs.1)),
            Err(e) => Err(e),
        }
    }
}

/// How one inbound segment moves the table from `pre` to `post`: the
/// segment's own flow advances by the state machine (and is dropped from
/// the table when it reaches `Closed`, or inserted when a SYN created it),
/// and every other flow keeps its connection.
pub open spec fn spec_table_step(
    pre: ConnectionTable,
    post: ConnectionTable,
    iph: Ipv4Fields,
    tcph: TcpFields,
    payload_len: nat,
) -> bool {
    let q = spec_quad_of(iph, tcph);
    &&& if pre.spec_contains(q) {
        let next = spec_on_packet(pre.spec_conn(q), tcph, payload_len).0;
        if next.state is Closed {
            !post.spec_contains(q)
        } else {
            post.spec_contains(q) && post.spec_conn(q) == next
        }
    } else {
        match spec_create(iph, tcph) {
            Ok(cs) => post.spec_contains(q) && post.spec_conn(q) == cs.0,
            Err(_) => !post.spec_contains(q),
        }
    }
    &&& forall|q2: Quad|
        q2 != spec_quad_of(iph, tcph) ==> #[trigger] post.spec_contains(q2) == pre.spec_contains(
            q2,
        )
    &&& forall|q2: Quad|
        q2 != spec_quad_of(iph, tcph) && pre.spec_contains(q2) ==> #[trigger] post.spec_conn(q2)
            == pre.spec_conn(q2)
}

impl ConnectionTable {
    /// Keys are pairwise distinct.
    pub open spec fn wf(self) -> bool {
        seq_keys_unique(self.entries@)
    }

    /// The table holds a connection for the flow `q`.
    pub open spec fn spec_contains(self, q: Quad) -> bool {
        seq_has_key(self.entries@, q)
    }

    /// The connection of the flow `q`.
    pub open spec fn spec_conn(self, q: Quad) -> Connection {
        seq_conn_of(self.entries@, q)
    }

    /// An empty table.
    pub fn new() -> (r: Self)
        ensures
            r.wf(),
            r.entries@.len() == 0,
            forall|q: Quad| !(#[trigger] r.spec_contains(q)),
    {
        ConnectionTable { entries: Vec::new() }
    }

    /// The position of the flow `q`, if the table holds it.
    fn find_index(&self, q: &Quad) -> (r: Option<usize>)
        requires
            self.wf(),
        ensures
            match r {
                Some(i) => i < self.entries@.len() && self.entries@[i as int].0 == *q,
                None => !self.spec_contains(*q),
            },
    {
        let n = self.entries.len();
        let mut i: usize = 0;
        while i < n
            invariant
                n == self.entries@.len(),
                i <= n,
                forall|j: int| 0 <= j < i ==> (#[trigger] self.entries@[j]).0 != *q,
            decreases n - i,
        {
            if self.entries[i].0 == *q {
                return Some(i);
            }
            i = i + 1;
        }
        None
    }

    /// Route one parsed inbound segment: to its flow's connection if the
    /// table knows the flow, else to `Connection::create`.  A connection
    /// that reaches `Closed` is evicted; a created one is inserted.
    pub fn handle_segment(
        &mut self,
        iph: &Ipv4Fields,
        tcph: &TcpFields,
        payload: &[u8],
    ) -> (r: Result<Option<Segment>, TcpError>)
        requires
            old(self).wf(),
            payload@.len() + 2 <= u32::MAX,
        ensures
            final(self).wf(),
            r == spec_segment_result(*old(self), *iph, *tcph, payload@.len() as nat),
            spec_table_step(*old(self), *final(self), *iph, *tcph, payload@.len() as nat),
    {
        let q = Quad {
            src_addr: iph.source,
            src_port: tcph.source_port,
            dst_addr: iph.destination,
            dst_port: tcph.destination_port,
        };
        match self.find_index(&q) {
            Some(i) => {
                proof {
                    lemma_key_at(self.entries@, i as int);
                    lemma_swap_remove_keys(self.entries@, i as int);
                }
                let (quad, mut conn) = self.entries.swap_remove(i);
                let res = conn.on_packet(tcph, payload);
                if conn.state == State::Closed {
                    return res;
                }
                proof {
                    lemma_push_keys(self.entries@, (quad, conn));
                }
                self.entries.push((quad, conn));
                res
            },
            None => {
                match Connection::create(iph, tcph) {
                    Ok((conn, seg)) => {
                        proof {
                            lemma_push_keys(self.entries@, (q, conn));
                        }
                        self.entries.push((q, conn));
                        Ok(Some(seg))
                    },
                    Err(e) => Err(e),
                }
            },
        }
    }

    /// Request a local close of the flow `q`: its connection sends a FIN
    /// and moves towards `Closed` per `spec_close`; an unknown flow, or
    /// one whose state cannot close, is refused.
    pub fn close_flow(&mut self, q: &Quad) -> (r: Result<Segment, TcpError>)
        requires
            old(self).wf(),
        ensures
            final(self).wf(),
            !old(self).spec_contains(*q) ==> r == Err::<Segment, TcpError>(TcpError::CannotClose)
                && *final(self) == *old(self),
            old(self).spec_contains(*q) ==> {
                let step = spec_close(old(self).spec_conn(*q));
                &&& r == step.1
                &&& final(self).spec_contains(*q)
                &&& final(self).spec_conn(*q) == step.0
            },
            forall|q2: Quad|
                q2 != *q ==> #[trigger] final(self).spec_contains(q2) == old(self).spec_contains(
                    q2,
                ),
            forall|q2: Quad|
                q2 != *q && old(self).spec_contains(q2) ==> #[trigger] final(self).spec_conn(q2)
                    == old(self).spec_conn(q2),
    {
        match self.find_index(q) {
            Some(i) => {
                proof {
                    lemma_key_at(self.entries@, i as int);
                    lemma_swap_remove_keys(self.entries@, i as int);
                }
                let (quad, mut conn) = self.entries.swap_remove(i);
                let res = conn.close_connection();
                proof {
                    lemma_push_keys(self.entries@, (quad, conn));
                }
                self.entries.push((quad, conn));
                res
            },
            None => Err(TcpError::CannotClose),
        }
    }

    /// Handle one raw frame from the device: skip the 4-byte link tag,
    /// parse the IPv4 header (drop the frame as malformed if that fails),
    /// pass over anything that is not TCP, parse the TCP header, route the
    /// segment by its flow key, and serialise whatever segment the engine
    /// answers with into a frame ready to be written back.
    pub fn handle_frame(&mut self, frame: &[u8]) -> (r: Result<Option<Vec<u8>>, DispatchError>)
        requires
            old(self).wf(),
            frame@.len() + 2 <= u32::MAX,
        ensures
            final(self).wf(),
            ({
                let b = frame@;
                if b.len() < 4 {
                    r == Err::<Option<Vec<u8>>, DispatchError>(DispatchError::MalformedIp)
                        && *final(self) == *old(self)
                } else {
                    match ipv4_parse(b.subrange(4, b.len() as int)) {
                        None => r == Err::<Option<Vec<u8>>, DispatchError>(
                            DispatchError::MalformedIp,
                        ) && *final(self) == *old(self),
                        Some((iph, ip_len)) => if iph.protocol != TCP_PROTOCOL {
                            r == Ok::<Option<Vec<u8>>, DispatchError>(None) && *final(self)
                                == *old(self)
                        } else {
                            match tcp_parse(b.subrange(4 + ip_len as int, b.len() as int)) {
                                None => r == Err::<Option<Vec<u8>>, DispatchError>(
                                    DispatchError::MalformedTcp,
                                ) && *final(self) == *old(self),
                                Some((tcph, tcp_len)) => {
                                    let plen = (b.len() - 4 - ip_len - tcp_len) as nat;
                                    &&& spec_table_step(*old(self), *final(self), iph, tcph, plen)
                                    &&& match spec_segment_result(*old(self), iph, tcph, plen) {
                                        Ok(Some(seg)) => r matches Ok(Some(v)) && v@
                                            == spec_frame_bytes(seg.ip, seg.tcp),
                                        Ok(None) => r == Ok::<Option<Vec<u8>>, DispatchError>(
                                            None,
                                        ),
                                        Err(e) => r == Err::<Option<Vec<u8>>, DispatchError>(
                                            DispatchError::Protocol(e),
                                        ),
                                    }
                                },
                            }
                        },
                    }
                }
            }),
    {
        if frame.len() < 4 {
            return Err(DispatchError::MalformedIp);
        }
        let ip_input = vstd::slice::slice_subrange(frame, 4, frame.len());
        let (iph, ip_len) = match parse_ipv4(ip_input) {
            Some(p) => p,
            None => return Err(DispatchError::MalformedIp),
        };
        if iph.protocol != TCP_PROTOCOL {
            return Ok(None);
        }
        let tcp_input = vstd::slice::slice_subrange(frame, 4 + ip_len, frame.len());
        let (tcph, tcp_len) = match parse_tcp(tcp_input) {
            Some(p) => p,
            None => return Err(DispatchError::MalformedTcp),
        };
        let payload = vstd::slice::slice_subrange(frame, 4 + ip_len + tcp_len, frame.len());
        match self.handle_segment(&iph, &tcph, payload) {
            Ok(Some(seg)) => {
                Ok(Some(encode_frame(&seg.ip, &seg.tcp)))
            },
            Ok(None) => Ok(None),
            Err(e) => Err(DispatchError::Protocol(e)),
        }
    }
}

} // verus!

use usertcp::codec::{Ipv4Fields, TcpFields};
use usertcp::table::{ConnectionTable, Quad};
use usertcp::tcp::{Connection, State, TcpError};

const LOCAL: u32 = 0x0a000001; // 10.0.0.1
const PEER: u32 = 0x0a000002; // 10.0.0.2

fn peer_ip() -> Ipv4Fields {
    Ipv4Fields { source: PEER, destination: LOCAL, ttl: 64, protocol: 6, payload_len: 20 }
}

fn peer_seg(seq: u32, ackn: u32, syn: bool, ack: bool, fin: bool) -> TcpFields {
    TcpFields {
        source_port: 5000,
        destination_port: 80,
        sequence_number: seq,
        acknowledgment_number: ackn,
        syn,
        ack,
        rst: false,
        fin,
        window_size: 4096,
        checksum: 0,
    }
}

fn handshake() -> Connection {
    let (mut conn, _) = Connection::create(&peer_ip(), &peer_seg(1000, 0, true, false, false))
        .unwrap();
    let r = conn.on_packet(&peer_seg(1001, 1, false, true, false), &[]);
    assert_eq!(r, Ok(None));
    assert_eq!(conn.state, State::Established);
    conn
}

#[test]
fn syn_creates_connection() {
    // Scenario A: an unknown flow sends SYN(seq=1000); the engine creates
    // the connection and answers SYN+ACK(seq=0, ack=1001).
    let r = Connection::create(&peer_ip(), &peer_seg(1000, 0, true, false, false));
    let (conn, seg) = r.unwrap();
    assert_eq!(conn.state, State::SynRcvd);
    assert_eq!(conn.rcv_seq.nxt, 1001);
    assert_eq!(conn.rcv_seq.irs, 1000);
    assert_eq!(conn.rcv_seq.wnd, 1024);
    assert_eq!(conn.snd_seq.iss, 0);
    assert_eq!(conn.snd_seq.una, 0);
    assert_eq!(conn.snd_seq.nxt, 1);
    assert_eq!(conn.snd_seq.wnd, 4096);
    assert_eq!(seg.tcp.sequence_number, 0);
    assert_eq!(seg.tcp.acknowledgment_number, 1001);
    assert!(seg.tcp.syn && seg.tcp.ack && !seg.tcp.rst && !seg.tcp.fin);
    assert_eq!(seg.tcp.source_port, 80);
    assert_eq!(seg.tcp.destination_port, 5000);
    assert_eq!(seg.tcp.window_size, 1024);
    assert_eq!(seg.ip.source, LOCAL);
    assert_eq!(seg.ip.destination, PEER);
    assert_eq!(seg.ip.ttl, 64);
    assert_eq!(seg.ip.protocol, 6);
    assert_eq!(seg.ip.payload_len, 20);
}

#[test]
fn syn_sequence_wraps() {
    let r = Connection::create(&peer_ip(), &peer_seg(u32::MAX, 0, true, false, false));
    let (conn, seg) = r.unwrap();
    assert_eq!(conn.rcv_seq.nxt, 0);
    assert_eq!(seg.tcp.acknowledgment_number, 0);
}

#[test]
fn non_syn_for_unknown_flow_is_refused() {
    let r = Connection::create(&peer_ip(), &peer_seg(1000, 0, false, true, false));
    assert_eq!(r.map(|_| ()), Err(TcpError::NotSyn));
}

#[test]
fn handshake_ack_establishes() {
    // Scenario B: the handshake ACK(seq=1001, ack=1) establishes the flow.
    handshake();
}

#[test]
fn unacceptable_ack_in_syn_rcvd_sends_rst() {
    // Scenario C: an unacceptable ACK before synchronisation provokes a
    // RST and changes nothing.
    let (mut conn, _) = Connection::create(&peer_ip(), &peer_seg(1000, 0, true, false, false))
        .unwrap();
    let r = conn.on_packet(&peer_seg(1001, 9999, false, true, false), &[]);
    let seg = r.unwrap().unwrap();
    assert!(seg.tcp.rst && !seg.tcp.syn && !seg.tcp.ack && !seg.tcp.fin);
    assert_eq!(seg.tcp.sequence_number, 0);
    assert_eq!(seg.tcp.acknowledgment_number, 0);
    assert_eq!(conn.state, State::SynRcvd);
    assert_eq!(conn.snd_seq.nxt, 1);
    assert_eq!(conn.rcv_seq.nxt, 1001);
}

#[test]
fn missing_ack_in_syn_rcvd_is_protocol_error() {
    let (mut conn, _) = Connection::create(&peer_ip(), &peer_seg(1000, 0, true, false, false))
        .unwrap();
    // The acknowledgment number is acceptable, but the ACK flag is unset.
    let r = conn.on_packet(&peer_seg(1001, 1, false, false, false), &[]);
    assert_eq!(r, Err(TcpError::AckExpected));
    assert_eq!(conn.state, State::SynRcvd);
}

#[test]
fn fin_in_established_is_acked() {
    // Scenario D: FIN(seq=1001) in Established draws ACK(ack=1002) and
    // moves the flow to CloseWait.
    let mut conn = handshake();
    let r = conn.on_packet(&peer_seg(1001, 1, false, true, true), &[]);
    let seg = r.unwrap().unwrap();
    assert!(seg.tcp.ack && !seg.tcp.fin && !seg.tcp.syn && !seg.tcp.rst);
    assert_eq!(seg.tcp.sequence_number, 1);
    assert_eq!(seg.tcp.acknowledgment_number, 1002);
    assert_eq!(conn.state, State::CloseWait);
    assert_eq!(conn.rcv_seq.nxt, 1002);
    assert_eq!(conn.snd_seq.nxt, 1);
}

#[test]
fn duplicate_fin_does_not_double_advance() {
    // Re-delivering the already-processed FIN advances neither RCV.NXT
    // nor SND.NXT: the duplicate falls outside the moved window and is
    // dropped.
    let mut conn = handshake();
    let fin = peer_seg(1001, 1, false, true, true);
    conn.on_packet(&fin, &[]).unwrap().unwrap();
    let r = conn.on_packet(&fin, &[]);
    assert_eq!(r, Ok(None));
    assert_eq!(conn.state, State::CloseWait);
    assert_eq!(conn.rcv_seq.nxt, 1002);
    assert_eq!(conn.snd_seq.nxt, 1);
}

#[test]
fn duplicate_handshake_ack_is_harmless() {
    let mut conn = handshake();
    let r = conn.on_packet(&peer_seg(1001, 1, false, true, false), &[]);
    assert_eq!(r, Ok(None));
    assert_eq!(conn.state, State::Established);
    assert_eq!(conn.rcv_seq.nxt, 1001);
    assert_eq!(conn.snd_seq.nxt, 1);
}

#[test]
fn established_data_segment_changes_nothing() {
    // Payload delivery is not modelled: an in-window data segment is
    // accepted silently and the spaces stay put.
    let mut conn = handshake();
    let r = conn.on_packet(&peer_seg(1001, 1, false, true, false), &[1, 2, 3]);
    assert_eq!(r, Ok(None));
    assert_eq!(conn.state, State::Established);
    assert_eq!(conn.rcv_seq.nxt, 1001);
}

#[test]
fn out_of_window_segment_is_dropped_silently() {
    let mut conn = handshake();
    let r = conn.on_packet(&peer_seg(9999, 1, false, true, false), &[1, 2, 3]);
    assert_eq!(r, Ok(None));
    assert_eq!(conn.state, State::Established);
}

#[test]
fn close_wait_close_sends_fin_and_last_ack_takes_final_ack() {
    // Scenario E: the local close in CloseWait emits the FIN; the peer's
    // ACK of that FIN closes the connection.
    let mut conn = handshake();
    conn.on_packet(&peer_seg(1001, 1, false, true, true), &[]).unwrap();
    assert_eq!(conn.state, State::CloseWait);
    let fin = conn.close_connection().unwrap();
    assert!(fin.tcp.fin && !fin.tcp.syn && !fin.tcp.ack && !fin.tcp.rst);
    assert_eq!(fin.tcp.sequence_number, 1);
    assert_eq!(fin.tcp.acknowledgment_number, 1002);
    assert_eq!(conn.state, State::LastAck);
    assert_eq!(conn.snd_seq.nxt, 2);
    let r = conn.on_packet(&peer_seg(1002, 2, false, true, false), &[]);
    assert_eq!(r, Ok(None));
    assert_eq!(conn.state, State::Closed);
}

#[test]
fn missing_ack_in_last_ack_is_protocol_error() {
    let mut conn = handshake();
    conn.on_packet(&peer_seg(1001, 1, false, true, true), &[]).unwrap();
    conn.close_connection().unwrap();
    let r = conn.on_packet(&peer_seg(1002, 2, false, false, false), &[]);
    assert_eq!(r, Err(TcpError::AckExpected));
    assert_eq!(conn.state, State::LastAck);
}

#[test]
fn established_close_enters_fin_wait_1() {
    let mut conn = handshake();
    let fin = conn.close_connection().unwrap();
    assert!(fin.tcp.fin);
    assert_eq!(fin.tcp.sequence_number, 1);
    assert_eq!(fin.tcp.acknowledgment_number, 1001);
    assert_eq!(conn.state, State::FinWait1);
    assert_eq!(conn.snd_seq.nxt, 2);
}

#[test]
fn simultaneous_close_through_closing() {
    // Both sides close at once: our FIN is in flight when the peer's FIN
    // arrives; we ACK it and meet in Closing, and the final ACK closes.
    let mut conn = handshake();
    conn.close_connection().unwrap();
    let r = conn.on_packet(&peer_seg(1001, 1, false, false, true), &[]);
    let seg = r.unwrap().unwrap();
    assert!(seg.tcp.ack);
    assert_eq!(seg.tcp.acknowledgment_number, 1002);
    assert_eq!(conn.state, State::Closing);
    assert_eq!(conn.rcv_seq.nxt, 1002);
    let r2 = conn.on_packet(&peer_seg(1002, 2, false, true, false), &[]);
    assert_eq!(r2, Ok(None));
    assert_eq!(conn.state, State::Closed);
}

#[test]
fn non_fin_in_fin_wait_1_is_protocol_error() {
    let mut conn = handshake();
    conn.close_connection().unwrap();
    let r = conn.on_packet(&peer_seg(1001, 1, false, true, false), &[]);
    assert_eq!(r, Err(TcpError::UnexpectedSegment));
    assert_eq!(conn.state, State::FinWait1);
}

#[test]
fn inbound_in_close_wait_is_unhandled() {
    let mut conn = handshake();
    conn.on_packet(&peer_seg(1001, 1, false, true, true), &[]).unwrap();
    let r = conn.on_packet(&peer_seg(1002, 1, false, true, false), &[]);
    assert_eq!(r, Err(TcpError::UnhandledState));
    assert_eq!(conn.state, State::CloseWait);
}

#[test]
fn fin_wait_2_awaits_without_acting() {
    // FinWait2's inbound handling is a placeholder: an acceptable segment
    // changes nothing and draws no reply.
    let mut conn = handshake();
    conn.state = State::FinWait2;
    let r = conn.on_packet(&peer_seg(1001, 1, false, true, false), &[]);
    assert_eq!(r, Ok(None));
    assert_eq!(conn.state, State::FinWait2);
    assert_eq!(conn.rcv_seq.nxt, 1001);
    assert_eq!(conn.snd_seq.nxt, 1);
}

#[test]
fn inbound_in_closed_is_unhandled() {
    let mut conn = handshake();
    conn.state = State::Closed;
    let r = conn.on_packet(&peer_seg(1001, 1, false, true, false), &[]);
    assert_eq!(r, Err(TcpError::UnhandledState));
    assert_eq!(conn.state, State::Closed);
}

#[test]
fn close_in_syn_rcvd_is_refused() {
    let (mut conn, _) = Connection::create(&peer_ip(), &peer_seg(1000, 0, true, false, false))
        .unwrap();
    let r = conn.close_connection();
    assert_eq!(r.map(|_| ()), Err(TcpError::CannotClose));
    assert_eq!(conn.state, State::SynRcvd);
}

#[test]
fn is_synchronized_only_after_syn_rcvd() {
    assert!(!State::SynRcvd.is_synchronized());
    assert!(State::Established.is_synchronized());
    assert!(State::FinWait1.is_synchronized());
    assert!(State::FinWait2.is_synchronized());
    assert!(State::CloseWait.is_synchronized());
    assert!(State::LastAck.is_synchronized());
    assert!(State::Closing.is_synchronized());
    assert!(State::Closed.is_synchronized());
}

#[test]
fn table_routes_by_flow_and_reuses_evicted_keys() {
    let mut table = ConnectionTable::new();
    let ip = peer_ip();
    let q = Quad { src_addr: PEER, src_port: 5000, dst_addr: LOCAL, dst_port: 80 };

    // A SYN for an unknown flow creates the connection and answers SYN+ACK.
    let syn = peer_seg(1000, 0, true, false, false);
    let seg = table.handle_segment(&ip, &syn, &[]).unwrap().unwrap();
    assert!(seg.tcp.syn && seg.tcp.ack);

    // A non-SYN segment of another flow is refused without a connection.
    let mut other = peer_seg(1000, 0, false, true, false);
    other.source_port = 6000;
    assert_eq!(table.handle_segment(&ip, &other, &[]).map(|_| ()), Err(TcpError::NotSyn));

    // The handshake ACK reaches the stored connection.
    let r = table.handle_segment(&ip, &peer_seg(1001, 1, false, true, false), &[]);
    assert_eq!(r, Ok(None));

    // Peer closes; we close too; its final ACK closes and evicts the flow.
    table.handle_segment(&ip, &peer_seg(1001, 1, false, true, true), &[]).unwrap().unwrap();
    let fin = table.close_flow(&q).unwrap();
    assert!(fin.tcp.fin);
    let r = table.handle_segment(&ip, &peer_seg(1002, 2, false, true, false), &[]);
    assert_eq!(r, Ok(None));

    // The key is free again: a fresh SYN re-handshakes instead of hitting
    // a stale connection.
    let seg = table.handle_segment(&ip, &peer_seg(3000, 0, true, false, false), &[]).unwrap();
    let seg = seg.unwrap();
    assert!(seg.tcp.syn && seg.tcp.ack);
    assert_eq!(seg.tcp.acknowledgment_number, 3001);
}

#[test]
fn close_flow_of_unknown_quad_is_refused() {
    let mut table = ConnectionTable::new();
    let q = Quad { src_addr: PEER, src_port: 5000, dst_addr: LOCAL, dst_port: 80 };
    assert_eq!(table.close_flow(&q).map(|_| ()), Err(TcpError::CannotClose));
}

#[test]
fn duplicate_syn_for_known_flow_draws_rst() {
    // A retransmitted SYN reaches the existing connection, whose
    // pre-synchronisation rule answers with a RST.
    let mut table = ConnectionTable::new();
    let ip = peer_ip();
    let syn = peer_seg(1000, 0, true, false, false);
    table.handle_segment(&ip, &syn, &[]).unwrap().unwrap();
    let seg = table.handle_segment(&ip, &syn, &[]).unwrap().unwrap();
    assert!(seg.tcp.rst && !seg.tcp.syn);
}

#[test]
fn segment_level_protocol_error_passes_through() {
    let mut table = ConnectionTable::new();
    let ip = peer_ip();
    table.handle_segment(&ip, &peer_seg(1000, 0, true, false, false), &[]).unwrap();
    let e = table.handle_segment(&ip, &peer_seg(1001, 1, false, false, false), &[]);
    assert_eq!(e, Err(TcpError::AckExpected));
}

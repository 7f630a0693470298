use etherparse::{IpNumber, Ipv4Header, Ipv4HeaderSlice, TcpHeader, TcpHeaderSlice};
use usertcp::table::{ConnectionTable, DispatchError};
use usertcp::tcp::TcpError;

const PEER: [u8; 4] = [10, 0, 0, 2];
const LOCAL: [u8; 4] = [10, 0, 0, 1];

/// One raw frame as the device delivers it: the 4-byte IPv4 link tag, the
/// IPv4 header, the TCP header, the payload.
fn frame(tcp: TcpHeader, payload: &[u8]) -> Vec<u8> {
    let ip = Ipv4Header::new(
        (tcp.header_len() + payload.len()) as u16,
        64,
        IpNumber(6),
        PEER,
        LOCAL,
    )
    .unwrap();
    let mut buf: Vec<u8> = vec![0, 0, 0, 2];
    ip.write(&mut buf).unwrap();
    tcp.write(&mut buf).unwrap();
    buf.extend_from_slice(payload);
    buf
}

fn syn_header(seq: u32) -> TcpHeader {
    let mut tcp = TcpHeader::new(5000, 80, seq, 4096);
    tcp.syn = true;
    tcp
}

#[test]
fn syn_frame_draws_syn_ack_frame() {
    let mut table = ConnectionTable::new();
    let reply = table.handle_frame(&frame(syn_header(1000), &[])).unwrap().unwrap();

    // The reply carries the same link tag.
    assert_eq!(&reply[..4], &[0, 0, 0, 2]);

    // Its IPv4 header travels back from the local address to the peer.
    let iph = Ipv4HeaderSlice::from_slice(&reply[4..]).unwrap();
    assert_eq!(iph.source(), LOCAL);
    assert_eq!(iph.destination(), PEER);
    assert_eq!(iph.protocol(), IpNumber(6));
    assert_eq!(iph.ttl(), 64);
    assert_eq!(iph.payload_len().unwrap(), 20);

    // Its TCP header is the SYN+ACK of scenario A.
    let tcph = TcpHeaderSlice::from_slice(&reply[4 + iph.slice().len()..]).unwrap();
    assert!(tcph.syn() && tcph.ack() && !tcph.rst() && !tcph.fin());
    assert_eq!(tcph.source_port(), 80);
    assert_eq!(tcph.destination_port(), 5000);
    assert_eq!(tcph.sequence_number(), 0);
    assert_eq!(tcph.acknowledgment_number(), 1001);
    assert_eq!(tcph.window_size(), 1024);
    assert_eq!(reply.len(), 4 + iph.slice().len() + tcph.slice().len());

    // The advertised checksum is the real TCP checksum over the reply's
    // own pseudo-header with an empty payload.
    let expected = tcph
        .to_header()
        .calc_checksum_ipv4_raw(LOCAL, PEER, &[])
        .unwrap();
    assert_eq!(tcph.checksum(), expected);
    assert_ne!(tcph.checksum(), 0);
}

#[test]
fn rst_frame_carries_checksum_too() {
    // A second SYN for the known flow draws a RST, and the RST's checksum
    // is computed like every other segment's.
    let mut table = ConnectionTable::new();
    table.handle_frame(&frame(syn_header(1000), &[])).unwrap().unwrap();
    let reply = table.handle_frame(&frame(syn_header(1000), &[])).unwrap().unwrap();
    let iph = Ipv4HeaderSlice::from_slice(&reply[4..]).unwrap();
    let tcph = TcpHeaderSlice::from_slice(&reply[4 + iph.slice().len()..]).unwrap();
    assert!(tcph.rst() && !tcph.syn() && !tcph.ack());
    let expected = tcph
        .to_header()
        .calc_checksum_ipv4_raw(LOCAL, PEER, &[])
        .unwrap();
    assert_eq!(tcph.checksum(), expected);
}

#[test]
fn full_handshake_and_fin_over_frames() {
    let mut table = ConnectionTable::new();
    table.handle_frame(&frame(syn_header(1000), &[])).unwrap().unwrap();

    let mut ack = TcpHeader::new(5000, 80, 1001, 4096);
    ack.ack = true;
    ack.acknowledgment_number = 1;
    assert_eq!(table.handle_frame(&frame(ack, &[])), Ok(None));

    let mut fin = TcpHeader::new(5000, 80, 1001, 4096);
    fin.fin = true;
    fin.ack = true;
    fin.acknowledgment_number = 1;
    let reply = table.handle_frame(&frame(fin, &[])).unwrap().unwrap();
    let iph = Ipv4HeaderSlice::from_slice(&reply[4..]).unwrap();
    let tcph = TcpHeaderSlice::from_slice(&reply[4 + iph.slice().len()..]).unwrap();
    assert!(tcph.ack() && !tcph.fin());
    assert_eq!(tcph.acknowledgment_number(), 1002);
    assert_eq!(tcph.sequence_number(), 1);
}

#[test]
fn data_segment_with_payload_is_measured_from_the_frame() {
    // An in-window data segment passes validation (its payload gives it
    // length) and is accepted silently.
    let mut table = ConnectionTable::new();
    table.handle_frame(&frame(syn_header(1000), &[])).unwrap().unwrap();
    let mut ack = TcpHeader::new(5000, 80, 1001, 4096);
    ack.ack = true;
    ack.acknowledgment_number = 1;
    table.handle_frame(&frame(ack, &[])).unwrap();

    let mut data = TcpHeader::new(5000, 80, 1001, 4096);
    data.ack = true;
    data.acknowledgment_number = 1;
    assert_eq!(table.handle_frame(&frame(data, b"hello")), Ok(None));

    // The same segment far outside the window is dropped the same way a
    // zero-length one would be at that distance.
    let mut far = TcpHeader::new(5000, 80, 50000, 4096);
    far.ack = true;
    far.acknowledgment_number = 1;
    assert_eq!(table.handle_frame(&frame(far, b"hello")), Ok(None));
}

#[test]
fn non_tcp_frame_is_passed_over() {
    let mut table = ConnectionTable::new();
    let ip = Ipv4Header::new(4, 64, IpNumber(17), PEER, LOCAL).unwrap();
    let mut buf: Vec<u8> = vec![0, 0, 0, 2];
    ip.write(&mut buf).unwrap();
    buf.extend_from_slice(&[1, 2, 3, 4]);
    assert_eq!(table.handle_frame(&buf), Ok(None));
}

#[test]
fn malformed_frames_are_reported() {
    let mut table = ConnectionTable::new();
    // Too short for the link tag.
    assert_eq!(table.handle_frame(&[0, 0]), Err(DispatchError::MalformedIp));
    // Not an IPv4 header after the tag.
    assert_eq!(
        table.handle_frame(&[0, 0, 0, 2, 0xff, 0xff, 0xff]),
        Err(DispatchError::MalformedIp)
    );
    // A fine IPv4 header whose TCP payload is truncated.
    let ip = Ipv4Header::new(5, 64, IpNumber(6), PEER, LOCAL).unwrap();
    let mut buf: Vec<u8> = vec![0, 0, 0, 2];
    ip.write(&mut buf).unwrap();
    buf.extend_from_slice(&[1, 2, 3, 4, 5]);
    assert_eq!(table.handle_frame(&buf), Err(DispatchError::MalformedTcp));
}

#[test]
fn frame_level_protocol_error_is_wrapped() {
    let mut table = ConnectionTable::new();
    // A non-SYN for an unknown flow: refused, no connection created.
    let mut ack = TcpHeader::new(5000, 80, 1000, 4096);
    ack.ack = true;
    ack.acknowledgment_number = 7;
    assert_eq!(
        table.handle_frame(&frame(ack, &[])),
        Err(DispatchError::Protocol(TcpError::NotSyn))
    );
}

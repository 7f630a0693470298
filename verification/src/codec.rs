//! The boundary to the external IPv4/TCP header codec.
//!
//! The engine's own logic works on the plain field values below.  Turning
//! raw bytes into those values, turning them back into bytes, and computing
//! the TCP checksum over the IPv4 pseudo-header are the codec's job; each
//! such call stands behind a trusted wrapper whose contract names the
//! codec's result.

use vstd::prelude::*;

verus! {

/// The protocol number of TCP in an IPv4 header.
pub const TCP_PROTOCOL: u8 = 6;

/// The byte length of an IPv4 or TCP header without options; every header
/// this engine builds carries no options.
pub const HEADER_LEN: u16 = 20;

/// The largest payload length whose total IPv4 length still fits in the
/// 16-bit total-length field.
pub const MAX_IPV4_PAYLOAD: u16 = 65515;

/// The IPv4 header fields the engine reads or decides; addresses are kept
/// in big-endian numeric form.
#[derive(Clone, Copy, Debug, PartialEq, Eq, Structural)]
pub struct Ipv4Fields {
    pub source: u32,
    pub destination: u32,
    pub ttl: u8,
    pub protocol: u8,
    pub payload_len: u16,
}

/// The TCP header fields the engine reads or decides.
#[derive(Clone, Copy, Debug, PartialEq, Eq, Structural)]
pub struct TcpFields {
    pub source_port: u16,
    pub destination_port: u16,
    pub sequence_number: u32,
    pub acknowledgment_number: u32,
    pub syn: bool,
    pub ack: bool,
    pub rst: bool,
    pub fin: bool,
    pub window_size: u16,
    pub checksum: u16,
}

/// What the codec makes of a byte slice offered as an IPv4 header: the
/// parsed fields and the number of bytes the header occupies, or nothing
/// if the slice is not a well-formed IPv4 header.
pub uninterp spec fn ipv4_parse(b: Seq<u8>) -> Option<(Ipv4Fields, usize)>;

/// What the codec makes of a byte slice offered as a TCP header.
pub uninterp spec fn tcp_parse(b: Seq<u8>) -> Option<(TcpFields, usize)>;

/// The serialised form of an option-less IPv4 header with the given fields,
/// header length and checksum recomputed.
pub uninterp spec fn ipv4_bytes_of(
    source: u32,
    destination: u32,
    ttl: u8,
    protocol: u8,
    payload_len: u16,
) -> Seq<u8>;

/// The serialised form of an option-less TCP header with the given fields.
pub uninterp spec fn tcp_bytes_of(
    source_port: u16,
    destination_port: u16,
    sequence_number: u32,
    acknowledgment_number: u32,
    syn: bool,
    ack: bool,
    rst: bool,
    fin: bool,
    window_size: u16,
    checksum: u16,
) -> Seq<u8>;

/// The TCP checksum of an option-less header with the given fields and an
/// empty payload, over the IPv4 pseudo-header built from `source` and
/// `destination`.
pub uninterp spec fn tcp_checksum_of(
    source_port: u16,
    destination_port: u16,
    sequence_number: u32,
    acknowledgment_number: u32,
    syn: bool,
    ack: bool,
    rst: bool,
    fin: bool,
    window_size: u16,
    source: u32,
    destination: u32,
) -> u16;

/// The bytes of one frame as the network device takes them: the 4-byte
/// link tag naming the IPv4 address family, then the serialised IPv4
/// header, then the serialised TCP header it carries.
pub open spec fn spec_frame_bytes(ip: Ipv4Fields, tcp: TcpFields) -> Seq<u8> {
    seq![0u8, 0u8, 0u8, 2u8] + ipv4_bytes_of(ip.source, ip.destination, ip.ttl, ip.protocol, ip.payload_len)
        + tcp_bytes_of(
        tcp.source_port,
        tcp.destination_port,
        tcp.sequence_number,
        tcp.acknowledgment_number,
        tcp.syn,
        tcp.ack,
        tcp.rst,
        tcp.fin,
        tcp.window_size,
        tcp.checksum,
    )
}

/// Serialise one outbound segment into a device frame: the IPv4 link tag,
/// then the two headers.
pub fn encode_frame(ip: &Ipv4Fields, tcp: &TcpFields) -> (r: Vec<u8>)
    requires
        ip.payload_len <= MAX_IPV4_PAYLOAD,
    ensures
        r@ == spec_frame_bytes(*ip, *tcp),
{
    let mut frame: Vec<u8> = Vec::new();
    frame.push(0);
    frame.push(0);
    frame.push(0);
    frame.push(2);
    let mut ip_bytes = serialize_ipv4(ip);
    let mut tcp_bytes = serialize_tcp(tcp);
    proof {
        assert(frame@ =~= seq![0u8, 0u8, 0u8, 2u8]);
    }
    frame.append(&mut ip_bytes);
    frame.append(&mut tcp_bytes);
    frame
}

/// Relies on `etherparse::Ipv4HeaderSlice::from_slice`: it accepts exactly
/// the slices that begin with a well-formed IPv4 header, and the header
/// slice it carves out is at least 20 bytes and no longer than the input.
/// A slice whose total-length field is shorter than its header is rejected
/// here as malformed as well.
#[verifier::external_body]
pub fn parse_ipv4(b: &[u8]) -> (r: Option<(Ipv4Fields, usize)>)
    ensures
        r == ipv4_parse(b@),
        r matches Some(p) ==> 20 <= p.1 <= b@.len(),
{
    let s = match etherparse::Ipv4HeaderSlice::from_slice(b) { Ok(s) => s, Err(_) => return None };
    let payload_len = match s.payload_len() { Ok(p) => p, Err(_) => return None };
    let f = Ipv4Fields {
        source: u32::from_be_bytes(s.source()),
        destination: u32::from_be_bytes(s.destination()),
        ttl: s.ttl(),
        protocol: s.protocol().0,
        payload_len,
    };
    Some((f, s.slice().len()))
}

/// Relies on `etherparse::TcpHeaderSlice::from_slice`: it accepts exactly
/// the slices that begin with a well-formed TCP header, and the header
/// slice it carves out is at least 20 bytes and no longer than the input.
#[verifier::external_body]
pub fn parse_tcp(b: &[u8]) -> (r: Option<(TcpFields, usize)>)
    ensures
        r == tcp_parse(b@),
        r matches Some(p) ==> 20 <= p.1 <= b@.len(),
{
    let s = match etherparse::TcpHeaderSlice::from_slice(b) { Ok(s) => s, Err(_) => return None };
    let f = TcpFields {
        source_port: s.source_port(), destination_port: s.destination_port(),
        sequence_number: s.sequence_number(), acknowledgment_number: s.acknowledgment_number(),
        syn: s.syn(), ack: s.ack(), rst: s.rst(), fin: s.fin(),
        window_size: s.window_size(), checksum: s.checksum(),
    };
    Some((f, s.slice().len()))
}

/// Relies on `etherparse::Ipv4Header::write`: it serialises an option-less
/// header to its 20 bytes, recomputing length and header checksum.  With
/// `payload_len` at most `MAX_IPV4_PAYLOAD`, `Ipv4Header::new` cannot fail,
/// and writing into a `Vec` cannot fail.
#[verifier::external_body]
pub fn serialize_ipv4(f: &Ipv4Fields) -> (r: Vec<u8>)
    requires
        f.payload_len <= MAX_IPV4_PAYLOAD,
    ensures
        r@ == ipv4_bytes_of(f.source, f.destination, f.ttl, f.protocol, f.payload_len),
{
    let h = etherparse::Ipv4Header::new(f.payload_len, f.ttl, etherparse::IpNumber(f.protocol),
        f.source.to_be_bytes(), f.destination.to_be_bytes()).unwrap();
    let mut v: Vec<u8> = Vec::new();
    h.write(&mut v).unwrap();
    v
}

/// Relies on `etherparse::TcpHeader::write`: it serialises an option-less
/// header to its 20 bytes, with the checksum field as given.  Writing into
/// a `Vec` cannot fail.
#[verifier::external_body]
pub fn serialize_tcp(f: &TcpFields) -> (r: Vec<u8>)
    ensures
        r@ == tcp_bytes_of(
            f.source_port,
            f.destination_port,
            f.sequence_number,
            f.acknowledgment_number,
            f.syn,
            f.ack,
            f.rst,
            f.fin,
            f.window_size,
            f.checksum,
        ),
{
    let mut h = etherparse::TcpHeader::new(f.source_port, f.destination_port, f.sequence_number,
        f.window_size);
    h.acknowledgment_number = f.acknowledgment_number;
    h.syn = f.syn; h.ack = f.ack; h.rst = f.rst; h.fin = f.fin;
    h.checksum = f.checksum;
    let mut v: Vec<u8> = Vec::new();
    h.write(&mut v).unwrap();
    v
}

/// Relies on `etherparse::TcpHeader::calc_checksum_ipv4_raw`: the TCP
/// checksum over the IPv4 pseudo-header and an empty payload, a function
/// of the header fields and the two addresses alone (the checksum field
/// itself is not an input).  With an empty payload the length check inside
/// cannot fail.
#[verifier::external_body]
pub fn tcp_checksum(f: &TcpFields, source: u32, destination: u32) -> (r: u16)
    ensures
        r == tcp_checksum_of(
            f.source_port,
            f.destination_port,
            f.sequence_number,
            f.acknowledgment_number,
            f.syn,
            f.ack,
            f.rst,
            f.fin,
            f.window_size,
            source,
            destination,
        ),
{
    let mut h = etherparse::TcpHeader::new(f.source_port, f.destination_port, f.sequence_number,
        f.window_size);
    h.acknowledgment_number = f.acknowledgment_number;
    h.syn = f.syn; h.ack = f.ack; h.rst = f.rst; h.fin = f.fin;
    h.calc_checksum_ipv4_raw(source.to_be_bytes(), destination.to_be_bytes(), &[]).unwrap()
}

} // verus!

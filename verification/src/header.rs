//! Builders for outbound IPv4 and TCP headers: immutable per-flow templates
//! whose constructors decide every field value.  Serialisation and checksum
//! arithmetic are the codec's job (`crate::codec`); every TCP segment built
//! here carries a checksum computed over the IPv4 pseudo-header with an
//! empty payload, the RST segment included.

use vstd::prelude::*;

use crate::codec::{tcp_checksum, tcp_checksum_of, Ipv4Fields, TcpFields};

verus! {

/// An immutable template for this flow's outbound IPv4 headers.
#[derive(Clone, Copy, Debug)]
pub struct Ipv4HeaderBuilder {
    pub ttl: u8,
    pub protocol: u8,
    pub source: u32,
    pub destination: u32,
}

impl Ipv4HeaderBuilder {
    pub fn new(source: u32, destination: u32, protocol: u8, ttl: u8) -> (r: Self)
        ensures
            r == (Ipv4HeaderBuilder { ttl, protocol, source, destination }),
    {
        Self { ttl, protocol, source, destination }
    }

    /// A complete header with the template's fixed fields and the given
    /// payload length; total length and header checksum are recomputed by
    /// the codec when the header is serialised.
    pub fn build(&self, payload_len: u16) -> (r: Ipv4Fields)
        ensures
            r == (Ipv4Fields {
                source: self.source,
                destination: self.destination,
                ttl: self.ttl,
                protocol: self.protocol,
                payload_len,
            }),
    {
        Ipv4Fields {
            source: self.source,
            destination: self.destination,
            ttl: self.ttl,
            protocol: self.protocol,
            payload_len,
        }
    }
}

/// The TCP segment with the given sequence/acknowledgment numbers, flags,
/// ports and window, and the checksum the codec computes for it over the
/// IPv4 pseudo-header `(source, destination)` with an empty payload.
pub open spec fn spec_tcp_segment(
    source_port: u16,
    destination_port: u16,
    sequence_number: u32,
    acknowledgment_number: u32,
    syn: bool,
    ack: bool,
    rst: bool,
    fin: bool,
    window_size: u16,
    source: u32,
    destination: u32,
) -> TcpFields {
    TcpFields {
        source_port,
        destination_port,
        sequence_number,
        acknowledgment_number,
        syn,
        ack,
        rst,
        fin,
        window_size,
        checksum: tcp_checksum_of(
            source_port,
            destination_port,
            sequence_number,
            acknowledgment_number,
            syn,
            ack,
            rst,
            fin,
            window_size,
            source,
            destination,
        ),
    }
}

/// An immutable template for this flow's outbound TCP headers:
/// `source_port` is the local port, `destination_port` the peer's, and
/// `window_size` the locally advertised receive window.
#[derive(Clone, Copy, Debug)]
pub struct TcpHeaderBuilder {
    pub source_port: u16,
    pub destination_port: u16,
    pub window_size: u16,
}

impl TcpHeaderBuilder {
    pub fn new(source_port: u16, destination_port: u16, window_size: u16) -> (r: Self)
        ensures
            r == (TcpHeaderBuilder { source_port, destination_port, window_size }),
    {
        Self { source_port, destination_port, window_size }
    }

    /// The SYN+ACK answering a connection request.  `peer_iph` is the
    /// header of the inbound SYN; the checksum's pseudo-header swaps its
    /// source and destination, since the reply travels the other way.
    pub fn create_syn_ack(
        &self,
        sequence_number: u32,
        acknowledgment_number: u32,
        peer_iph: &Ipv4Fields,
    ) -> (r: TcpFields)
        ensures
            r == spec_tcp_segment(
                self.source_port,
                self.destination_port,
                sequence_number,
                acknowledgment_number,
                true,
                true,
                false,
                false,
                self.window_size,
                peer_iph.destination,
                peer_iph.source,
            ),
    {
        let mut rsp_tcph = TcpFields {
            source_port: self.source_port,
            destination_port: self.destination_port,
            sequence_number,
            acknowledgment_number,
            syn: true,
            ack: true,
            rst: false,
            fin: false,
            window_size: self.window_size,
            checksum: 0,
        };
        rsp_tcph.checksum = tcp_checksum(&rsp_tcph, peer_iph.destination, peer_iph.source);
        rsp_tcph
    }

    /// A bare RST; sequence and acknowledgment numbers stay at their
    /// defaults.  `iph` is the outbound IPv4 header the reset travels in.
    pub fn create_rst(&self, iph: &Ipv4Fields) -> (r: TcpFields)
        ensures
            r == spec_tcp_segment(
                self.source_port,
                self.destination_port,
                0,
                0,
                false,
                false,
                true,
                false,
                self.window_size,
                iph.source,
                iph.destination,
            ),
    {
        let mut rsp_tcph = TcpFields {
            source_port: self.source_port,
            destination_port: self.destination_port,
            sequence_number: 0,
            acknowledgment_number: 0,
            syn: false,
            ack: false,
            rst: true,
            fin: false,
            window_size: self.window_size,
            checksum: 0,
        };
        rsp_tcph.checksum = tcp_checksum(&rsp_tcph, iph.source, iph.destination);
        rsp_tcph
    }

    /// A plain ACK.  `iph` is the outbound IPv4 header it travels in.
    pub fn create_ack(
        &self,
        sequence_number: u32,
        acknowledgment_number: u32,
        iph: &Ipv4Fields,
    ) -> (r: TcpFields)
        ensures
            r == spec_tcp_segment(
                self.source_port,
                self.destination_port,
                sequence_number,
                acknowledgment_number,
                false,
                true,
                false,
                false,
                self.window_size,
                iph.source,
                iph.destination,
            ),
    {
        let mut rsp_tcph = TcpFields {
            source_port: self.source_port,
            destination_port: self.destination_port,
            sequence_number,
            acknowledgment_number,
            syn: false,
            ack: true,
            rst: false,
            fin: false,
            window_size: self.window_size,
            checksum: 0,
        };
        rsp_tcph.checksum = tcp_checksum(&rsp_tcph, iph.source, iph.destination);
        rsp_tcph
    }

    /// A FIN.  `iph` is the outbound IPv4 header it travels in.
    pub fn create_fin(
        &self,
        sequence_number: u32,
        acknowledgment_number: u32,
        iph: &Ipv4Fields,
    ) -> (r: TcpFields)
        ensures
            r == spec_tcp_segment(
                self.source_port,
                self.destination_port,
                sequence_number,
                acknowledgment_number,
                false,
                false,
                false,
                true,
                self.window_size,
                iph.source,
                iph.destination,
            ),
    {
        let mut rsp_tcph = TcpFields {
            source_port: self.source_port,
            destination_port: self.destination_port,
            sequence_number,
            acknowledgment_number,
            syn: false,
            ack: false,
            rst: false,
            fin: true,
            window_size: self.window_size,
            checksum: 0,
        };
        rsp_tcph.checksum = tcp_checksum(&rsp_tcph, iph.source, iph.destination);
        rsp_tcph
    }
}

} // verus!

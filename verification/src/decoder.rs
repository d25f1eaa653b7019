//! Frame decoder: one captured ethernet frame in, one [`PacketInfo`] or nothing out.
//!
//! The byte layout of the three headers is written down here as spec functions
//! on `Seq<u8>`. The executable decoder reads the headers through the `pnet`
//! packet views; what those views return is stated against the same spec
//! functions, and everything the decoder decides on top of them is verified.

use pnet::packet::ethernet::EthernetPacket;
use pnet::packet::ipv4::Ipv4Packet;
use pnet::packet::ipv6::Ipv6Packet;
use pnet::packet::tcp::TcpPacket;
use pnet::packet::Packet;
use crate::packet::{IpAddress, PacketInfo, Protocol, TcpSegment};
use vstd::arithmetic::power2::{lemma2_to64, lemma_pow2_adds, pow2};
use vstd::prelude::*;

verus! {

/// Length of the ethernet header: two MAC addresses and the ethertype.
pub const ETHERNET_HEADER_LEN: usize = 14;

/// Length of an IPv4 header without options.
pub const IPV4_MIN_HEADER_LEN: usize = 20;

/// Length of the fixed IPv6 header.
pub const IPV6_HEADER_LEN: usize = 40;

/// Length of a TCP header without options.
pub const TCP_MIN_HEADER_LEN: usize = 20;

/// Ethertype of IPv4.
pub const ETHERTYPE_IPV4: u16 = 0x0800;

/// Ethertype of IPv6.
pub const ETHERTYPE_IPV6: u16 = 0x86DD;

/// IP protocol number of TCP.
pub const IP_PROTOCOL_TCP: u8 = 6;

/// What the IPv4 view yields: protocol number and the two addresses.
#[derive(Clone, Copy, Debug, PartialEq, Eq)]
pub struct Ipv4Fields {
    pub protocol: u8,
    pub source: u32,
    pub destination: u32,
}

/// What the IPv6 view yields: the two addresses.
#[derive(Clone, Copy, Debug, PartialEq, Eq)]
pub struct Ipv6Fields {
    pub source: u128,
    pub destination: u128,
}

/// What the TCP view yields: ports, the tracked fields and the payload length.
#[derive(Clone, Copy, Debug, PartialEq, Eq)]
pub struct TcpFields {
    pub source_port: u16,
    pub destination_port: u16,
    pub sequence: u32,
    pub acknowledgement: u32,
    pub window: u16,
    pub payload_len: usize,
}

/// The two bytes at `at`, read as a big-endian number.
pub open spec fn be16(b: Seq<u8>, at: int) -> u16 {
    (b[at] * 0x100 + b[at + 1]) as u16
}

/// The four bytes at `at`, read as a big-endian number.
pub open spec fn be32(b: Seq<u8>, at: int) -> u32 {
    (b[at] * 0x100_0000 + b[at + 1] * 0x1_0000 + b[at + 2] * 0x100 + b[at + 3]) as u32
}

/// All of `b`, read as a big-endian number.
pub open spec fn be_number(b: Seq<u8>) -> nat
    decreases b.len(),
{
    if b.len() == 0 {
        0
    } else {
        be_number(b.drop_last()) * 0x100 + b.last() as nat
    }
}

/// A big-endian number of `n` bytes is below 2^(8n).
pub proof fn be_number_is_bounded(b: Seq<u8>)
    ensures
        be_number(b) < pow2(8 * b.len()),
    decreases b.len(),
{
    lemma2_to64();
    if b.len() > 0 {
        be_number_is_bounded(b.drop_last());
        lemma_pow2_adds(8 * (b.len() - 1) as nat, 8);
        let high = be_number(b.drop_last()) as int;
        let top = pow2(8 * (b.len() - 1) as nat) as int;
        assert(high * 0x100 + 0xff < top * 0x100) by (nonlinear_arith)
            requires
                high + 1 <= top,
        ;
    }
}

/// The sixteen bytes of an IPv6 address, read as one number, fit 128 bits.
pub proof fn ipv6_address_fits(b: Seq<u8>)
    requires
        b.len() == 16,
    ensures
        be_number(b) <= u128::MAX,
{
    be_number_is_bounded(b);
    lemma2_to64();
    lemma_pow2_adds(64, 64);
}

/// Ethertype of a frame of at least [`ETHERNET_HEADER_LEN`] bytes.
pub open spec fn ethertype(frame: Seq<u8>) -> u16 {
    be16(frame, 12)
}

/// What follows the ethernet header.
pub open spec fn ethernet_payload(frame: Seq<u8>) -> Seq<u8> {
    frame.skip(ETHERNET_HEADER_LEN as int)
}

/// Header length that an IPv4 packet declares, in bytes: the low nibble of the
/// first byte counts 32-bit words.
pub open spec fn ipv4_declared_header_len(packet: Seq<u8>) -> int {
    (packet[0] % 16) * 4
}

/// Where the IPv4 payload starts: after the declared header, and never inside
/// the twenty fixed bytes.
pub open spec fn ipv4_payload_start(packet: Seq<u8>) -> int {
    if ipv4_declared_header_len(packet) > IPV4_MIN_HEADER_LEN {
        ipv4_declared_header_len(packet)
    } else {
        IPV4_MIN_HEADER_LEN as int
    }
}

/// Payload length that an IPv4 packet declares: total length less declared
/// header length, zero where that would be negative.
pub open spec fn ipv4_declared_payload_len(packet: Seq<u8>) -> int {
    let total = be16(packet, 2) as int;
    if total > ipv4_declared_header_len(packet) {
        total - ipv4_declared_header_len(packet)
    } else {
        0
    }
}

/// Payload of an IPv4 packet of at least [`IPV4_MIN_HEADER_LEN`] bytes: from
/// the payload start, as many bytes as the header declares and the packet holds.
pub open spec fn ipv4_payload(packet: Seq<u8>) -> Seq<u8> {
    let start = ipv4_payload_start(packet);
    let wanted = start + ipv4_declared_payload_len(packet);
    let end = if wanted < packet.len() { wanted } else { packet.len() as int };
    if packet.len() <= start {
        Seq::empty()
    } else {
        packet.subrange(start, end)
    }
}

/// Fields of an IPv4 packet of at least [`IPV4_MIN_HEADER_LEN`] bytes.
pub open spec fn ipv4_fields(packet: Seq<u8>) -> Ipv4Fields {
    Ipv4Fields { protocol: packet[9], source: be32(packet, 12), destination: be32(packet, 16) }
}

/// Fields of an IPv6 packet of at least [`IPV6_HEADER_LEN`] bytes.
pub open spec fn ipv6_fields(packet: Seq<u8>) -> Ipv6Fields {
    Ipv6Fields {
        source: be_number(packet.subrange(8, 24)) as u128,
        destination: be_number(packet.subrange(24, 40)) as u128,
    }
}

/// Where the TCP payload starts: after the data offset that the header
/// declares (high nibble of byte 12, in 32-bit words), and never inside the
/// twenty fixed bytes.
pub open spec fn tcp_payload_start(segment: Seq<u8>) -> int {
    let declared = (segment[12] / 16) * 4;
    if declared > TCP_MIN_HEADER_LEN {
        declared
    } else {
        TCP_MIN_HEADER_LEN as int
    }
}

/// Fields of a TCP segment of at least [`TCP_MIN_HEADER_LEN`] bytes.
pub open spec fn tcp_fields(segment: Seq<u8>) -> TcpFields {
    TcpFields {
        source_port: be16(segment, 0),
        destination_port: be16(segment, 2),
        sequence: be32(segment, 4),
        acknowledgement: be32(segment, 8),
        window: be16(segment, 14),
        payload_len: if segment.len() <= tcp_payload_start(segment) {
            0usize
        } else {
            (segment.len() - tcp_payload_start(segment)) as usize
        },
    }
}

/// Ethertype of a frame, if the frame holds a whole ethernet header.
pub open spec fn frame_ethertype(frame: Seq<u8>) -> Option<u16> {
    if frame.len() >= ETHERNET_HEADER_LEN {
        Some(ethertype(frame))
    } else {
        None
    }
}

/// IPv4 fields of a frame, read behind the ethernet header, if both headers
/// are whole. The ethertype is not consulted.
pub open spec fn frame_ipv4(frame: Seq<u8>) -> Option<Ipv4Fields> {
    if frame.len() >= ETHERNET_HEADER_LEN + IPV4_MIN_HEADER_LEN {
        Some(ipv4_fields(ethernet_payload(frame)))
    } else {
        None
    }
}

/// IPv6 fields of a frame, read behind the ethernet header, if both headers
/// are whole. The ethertype is not consulted.
pub open spec fn frame_ipv6(frame: Seq<u8>) -> Option<Ipv6Fields> {
    if frame.len() >= ETHERNET_HEADER_LEN + IPV6_HEADER_LEN {
        Some(ipv6_fields(ethernet_payload(frame)))
    } else {
        None
    }
}

/// TCP fields of a frame, read in the IPv4 payload behind the ethernet header,
/// if all three headers are whole. Neither ethertype nor protocol number is
/// consulted.
pub open spec fn frame_tcp(frame: Seq<u8>) -> Option<TcpFields> {
    if frame.len() >= ETHERNET_HEADER_LEN + IPV4_MIN_HEADER_LEN
        && ipv4_payload(ethernet_payload(frame)).len() >= TCP_MIN_HEADER_LEN {
        Some(tcp_fields(ipv4_payload(ethernet_payload(frame))))
    } else {
        None
    }
}

/// `EthernetPacket::new` and `get_ethertype` of pnet: a view exists for every
/// buffer of fourteen bytes or more, and the ethertype is bytes 12 and 13,
/// big-endian.
#[verifier::external_body]
fn read_ethertype(frame: &[u8]) -> (r: Option<u16>)
    ensures
        r == frame_ethertype(frame@),
{
    EthernetPacket::new(frame).map(|eth| eth.get_ethertype().0)
}

/// `Ipv4Packet::new` of pnet on the ethernet payload, with
/// `get_next_level_protocol`, `get_source` and `get_destination`: a view
/// exists for twenty bytes or more; the protocol is byte 9, the addresses are
/// bytes 12..16 and 16..20.
#[verifier::external_body]
fn read_ipv4(frame: &[u8]) -> (r: Option<Ipv4Fields>)
    ensures
        r == frame_ipv4(frame@),
{
    EthernetPacket::new(frame).and_then(|eth| {
        Ipv4Packet::new(eth.payload()).map(|ip| Ipv4Fields {
            protocol: ip.get_next_level_protocol().0,
            source: u32::from(ip.get_source()),
            destination: u32::from(ip.get_destination()),
        })
    })
}

/// `Ipv6Packet::new` of pnet on the ethernet payload, with `get_source` and
/// `get_destination`: a view exists for forty bytes or more; the addresses are
/// bytes 8..24 and 24..40.
#[verifier::external_body]
fn read_ipv6(frame: &[u8]) -> (r: Option<Ipv6Fields>)
    ensures
        r == frame_ipv6(frame@),
{
    EthernetPacket::new(frame).and_then(|eth| {
        Ipv6Packet::new(eth.payload()).map(|ip| Ipv6Fields {
            source: u128::from(ip.get_source()),
            destination: u128::from(ip.get_destination()),
        })
    })
}

/// `TcpPacket::new` of pnet on the payload of the IPv4 view, with the getters
/// of ports, sequence, acknowledgement and window, and the length of
/// `payload()`. pnet cuts the IPv4 payload by the header's own lengths and by
/// the end of the buffer, and starts the TCP payload behind the declared data
/// offset: [`ipv4_payload`] and [`tcp_payload_start`] say how.
#[verifier::external_body]
fn read_tcp(frame: &[u8]) -> (r: Option<TcpFields>)
    ensures
        r == frame_tcp(frame@),
{
    EthernetPacket::new(frame).and_then(|eth| {
        Ipv4Packet::new(eth.payload()).and_then(|ip| {
            TcpPacket::new(ip.payload()).map(|tcp| TcpFields {
                source_port: tcp.get_source(),
                destination_port: tcp.get_destination(),
                sequence: tcp.get_sequence(),
                acknowledgement: tcp.get_acknowledgement(),
                window: tcp.get_window(),
                payload_len: tcp.payload().len(),
            })
        })
    })
}

/// The payload length as the record holds it.
pub open spec fn capped_len(len: usize) -> u32 {
    if len > u32::MAX {
        u32::MAX
    } else {
        len as u32
    }
}

/// The record of an IPv4 frame with the given header fields, and with the
/// given TCP fields where the frame carries TCP.
pub open spec fn ipv4_record(
    timestamp: i64,
    ip: Ipv4Fields,
    tcp: Option<TcpFields>,
    size: u64,
) -> PacketInfo {
    PacketInfo {
        protocol: Protocol::IPv4,
        size,
        src_ip: Some(IpAddress::V4(ip.source)),
        dst_ip: Some(IpAddress::V4(ip.destination)),
        src_port: match tcp {
            Some(fields) => Some(fields.source_port),
            None => None,
        },
        dst_port: match tcp {
            Some(fields) => Some(fields.destination_port),
            None => None,
        },
        tcp: match tcp {
            Some(fields) => Some(
                TcpSegment {
                    sequence: fields.sequence,
                    acknowledgement: fields.acknowledgement,
                    window: fields.window,
                    payload_len: capped_len(fields.payload_len),
                },
            ),
            None => None,
        },
        timestamp,
    }
}

/// The record of an IPv6 frame with the given header fields: addresses only.
pub open spec fn ipv6_record(timestamp: i64, ip: Ipv6Fields, size: u64) -> PacketInfo {
    PacketInfo {
        protocol: Protocol::IPv6,
        size,
        src_ip: Some(IpAddress::V6(ip.source)),
        dst_ip: Some(IpAddress::V6(ip.destination)),
        src_port: None,
        dst_port: None,
        tcp: None,
        timestamp,
    }
}

/// What a frame decodes to. A frame too short for an ethernet header is
/// discarded. An IPv4 frame gives a record if its IPv4 header is whole, with
/// TCP fields if the protocol is TCP and the TCP header is whole. An IPv6
/// frame gives a record if its IPv6 header is whole. Every other ethertype is
/// discarded. The size of the record is `frame_len`, not a length found in
/// a header.
pub open spec fn decoded(frame: Seq<u8>, frame_len: u64, timestamp: i64) -> Option<PacketInfo> {
    match frame_ethertype(frame) {
        Some(ethertype) => {
            if ethertype == ETHERTYPE_IPV4 {
                match frame_ipv4(frame) {
                    Some(ip) => Some(
                        ipv4_record(
                            timestamp,
                            ip,
                            if ip.protocol == IP_PROTOCOL_TCP {
                                frame_tcp(frame)
                            } else {
                                None
                            },
                            frame_len,
                        ),
                    ),
                    None => None,
                }
            } else if ethertype == ETHERTYPE_IPV6 {
                match frame_ipv6(frame) {
                    Some(ip) => Some(ipv6_record(timestamp, ip, frame_len)),
                    None => None,
                }
            } else {
                None
            }
        },
        None => None,
    }
}

/// Builds the record of an IPv4 frame from what the views yielded.
pub fn parse_ipv4_packet(timestamp: i64, ip: &Ipv4Fields, tcp: Option<TcpFields>, size: u64) -> (info:
    PacketInfo)
    ensures
        info == ipv4_record(timestamp, *ip, tcp, size),
{
    let (src_port, dst_port, segment) = match tcp {
        Some(fields) => (
            Some(fields.source_port),
            Some(fields.destination_port),
            Some(
                TcpSegment {
                    sequence: fields.sequence,
                    acknowledgement: fields.acknowledgement,
                    window: fields.window,
                    payload_len: if fields.payload_len > u32::MAX as usize {
                        u32::MAX
                    } else {
                        fields.payload_len as u32
                    },
                },
            ),
        ),
        None => (None, None, None),
    };
    PacketInfo {
        protocol: Protocol::IPv4,
        size,
        src_ip: Some(IpAddress::V4(ip.source)),
        dst_ip: Some(IpAddress::V4(ip.destination)),
        src_port,
        dst_port,
        tcp: segment,
        timestamp,
    }
}

/// Builds the record of an IPv6 frame from what the view yielded.
pub fn parse_ipv6_packet(timestamp: i64, ip: &Ipv6Fields, size: u64) -> (info: PacketInfo)
    ensures
        info == ipv6_record(timestamp, *ip, size),
{
    PacketInfo {
        protocol: Protocol::IPv6,
        size,
        src_ip: Some(IpAddress::V6(ip.source)),
        dst_ip: Some(IpAddress::V6(ip.destination)),
        src_port: None,
        dst_port: None,
        tcp: None,
        timestamp,
    }
}

/// Decodes one ethernet frame of `frame_len` bytes on the wire, captured at
/// `timestamp`. Malformed and truncated frames are discarded; nothing here
/// can panic on them.
pub fn parse_packet(frame: &[u8], frame_len: u64, timestamp: i64) -> (info: Option<PacketInfo>)
    ensures
        info == decoded(frame@, frame_len, timestamp),
{
    match read_ethertype(frame) {
        Some(ethertype) => {
            if ethertype == ETHERTYPE_IPV4 {
                match read_ipv4(frame) {
                    Some(ip) => {
                        let tcp = if ip.protocol == IP_PROTOCOL_TCP {
                            read_tcp(frame)
                        } else {
                            None
                        };
                        Some(parse_ipv4_packet(timestamp, &ip, tcp, frame_len))
                    },
                    None => None,
                }
            } else if ethertype == ETHERTYPE_IPV6 {
                match read_ipv6(frame) {
                    Some(ip) => Some(parse_ipv6_packet(timestamp, &ip, frame_len)),
                    None => None,
                }
            } else {
                None
            }
        },
        None => None,
    }
}

/// Decoding is a function of the frame, its length and its timestamp: two
/// runs on the same input cannot differ.
pub proof fn decoding_is_repeatable(
    frame: Seq<u8>,
    frame_len: u64,
    timestamp: i64,
    first: Option<PacketInfo>,
    second: Option<PacketInfo>,
)
    requires
        first == decoded(frame, frame_len, timestamp),
        second == decoded(frame, frame_len, timestamp),
    ensures
        first == second,
{
}

/// A decoded record names both addresses, of the family of its protocol
/// tag, and carries TCP fields and ports together or not at all, and only
/// for IPv4.
pub proof fn decoded_record_is_consistent(frame: Seq<u8>, frame_len: u64, timestamp: i64)
    ensures
        decoded(frame, frame_len, timestamp) matches Some(info) ==> {
            &&& info.size == frame_len
            &&& info.timestamp == timestamp
            &&& info.src_ip is Some
            &&& info.dst_ip is Some
            &&& info.protocol is IPv4 <==> info.src_ip->0 is V4
            &&& info.protocol is IPv4 <==> info.dst_ip->0 is V4
            &&& info.tcp is Some ==> info.protocol is IPv4
            &&& info.tcp is Some <==> info.src_port is Some
            &&& info.tcp is Some <==> info.dst_port is Some
        },
        frame.len() < ETHERNET_HEADER_LEN ==> decoded(frame, frame_len, timestamp) is None,
{
}

} // verus!

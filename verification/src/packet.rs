//! The decoded packet record and the plain values it is made of.

use vstd::prelude::*;

verus! {

/// An IP address, tagged by family. An IPv4 address is its four octets read as
/// one big-endian number (`10.0.0.5` is `0x0A00_0005`); an IPv6 address is its
/// sixteen octets read the same way.
#[derive(Clone, Copy, Debug, PartialEq, Eq)]
pub enum IpAddress {
    V4(u32),
    V6(u128),
}

/// Network-layer family of a decoded frame.
#[derive(Clone, Copy, Debug, PartialEq, Eq)]
pub enum Protocol {
    IPv4,
    IPv6,
}

/// The TCP header fields that sequence tracking reads.
#[derive(Clone, Copy, Debug, PartialEq, Eq)]
pub struct TcpSegment {
    pub sequence: u32,
    pub acknowledgement: u32,
    pub window: u16,
    /// Bytes that follow the TCP header, capped at `u32::MAX`.
    pub payload_len: u32,
}

/// What the decoder reports of one frame. It lives for the handling of that
/// frame and is never stored.
#[derive(Clone, Copy, Debug, PartialEq, Eq)]
pub struct PacketInfo {
    pub protocol: Protocol,
    /// Length of the ethernet frame, as the capture source gave it.
    pub size: u64,
    pub src_ip: Option<IpAddress>,
    pub dst_ip: Option<IpAddress>,
    pub src_port: Option<u16>,
    pub dst_port: Option<u16>,
    /// Present exactly when the frame carries TCP over IPv4 with a whole
    /// minimal TCP header; the ports are present with it.
    pub tcp: Option<TcpSegment>,
    /// Capture time, milliseconds since the Unix epoch (UTC).
    pub timestamp: i64,
}

} // verus!

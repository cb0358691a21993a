//! HEP3 packets as the telemetry composes them, before they are handed to a
//! sink.
use vstd::prelude::*;

use std::time::SystemTime;

verus! {

/// A point in time, from the standard library. It is stamped on packets and
/// carried along, never looked into.
#[verifier::external_type_specification]
#[verifier::external_body]
pub struct ExSystemTime(SystemTime);

/// `SystemTime::now` of the standard library: reads the system's clock. Nothing
/// is claimed of what it returns, and two calls may differ.
pub assume_specification[ SystemTime::now ]() -> SystemTime;

/// An IP address with a port: the far end of a flow, or a collector.
#[derive(Debug, Clone, Copy, PartialEq, Eq, Structural)]
pub enum Endpoint {
    /// An IPv4 address, its first octet the most significant.
    V4 { ipv4: u32, port: u16 },
    /// An IPv6 address, its first octet the most significant.
    V6 { ipv6: u128, port: u16, flowinfo: u32, scope_id: u32 },
}

/// The address `0.0.0.0:0`.
pub open spec fn unspecified() -> Endpoint {
    Endpoint::V4 { ipv4: 0, port: 0 }
}

/// Filled in for callers that have no address at hand. HEP3 requires source
/// and destination chunks; `0.0.0.0:0` is the conventional placeholder for
/// application-layer events.
pub fn unspecified_addr() -> (addr: Endpoint)
    ensures
        addr == unspecified(),
        addr == (Endpoint::V4 { ipv4: 0, port: 0 }),
{
    Endpoint::V4 { ipv4: 0, port: 0 }
}

/// The protocol types that the telemetry ships itself.
#[derive(Debug, Clone, Copy, PartialEq, Eq, Structural)]
pub enum HepProtocol {
    /// An application log line.
    Log,
    /// A caller-identity verdict.
    Verstat,
}

/// The transport that a packet is said to have been seen on.
#[derive(Debug, Clone, Copy, PartialEq, Eq, Structural)]
pub enum IpProto {
    Udp,
}

/// A packet, ready to be handed to a sink.
#[derive(Debug)]
pub struct HepPacket {
    pub capture_id: u32,
    pub capture_password: Option<String>,
    pub protocol: HepProtocol,
    pub transport: IpProto,
    pub src: Endpoint,
    pub dst: Endpoint,
    pub timestamp: SystemTime,
    pub correlation_id: Option<String>,
    pub payload: Vec<u8>,
}

/// What a packet holds.
pub struct PacketView {
    pub capture_id: u32,
    pub capture_password: Option<Seq<char>>,
    pub protocol: HepProtocol,
    pub transport: IpProto,
    pub src: Endpoint,
    pub dst: Endpoint,
    pub timestamp: SystemTime,
    pub correlation_id: Option<Seq<char>>,
    pub payload: Seq<u8>,
}

impl View for HepPacket {
    type V = PacketView;

    open spec fn view(&self) -> PacketView {
        PacketView {
            capture_id: self.capture_id,
            capture_password: opt_string(self.capture_password),
            protocol: self.protocol,
            transport: self.transport,
            src: self.src,
            dst: self.dst,
            timestamp: self.timestamp,
            correlation_id: opt_string(self.correlation_id),
            payload: self.payload@,
        }
    }
}

/// The text of an optional string.
pub open spec fn opt_string(text: Option<String>) -> Option<Seq<char>> {
    match text {
        Some(s) => Some(s@),
        None => None,
    }
}

/// The text of an optional string slice.
pub open spec fn opt_str(text: Option<&str>) -> Option<Seq<char>> {
    match text {
        Some(s) => Some(s@),
        None => None,
    }
}

/// An optional text is there exactly where the string is, and is its text.
pub proof fn law_optional_text_is_kept(string: Option<String>, slice: Option<&str>)
    ensures
        string matches Some(s) ==> opt_string(string) == Some(s@),
        string is None ==> opt_string(string) is None,
        slice matches Some(s) ==> opt_str(slice) == Some(s@),
        slice is None ==> opt_str(slice) is None,
        unspecified() == (Endpoint::V4 { ipv4: 0, port: 0 }),
{
}

/// A packet is seen as it is.
pub proof fn law_packet_is_seen_as_it_is(packet: HepPacket)
    ensures
        packet@.capture_id == packet.capture_id,
        packet@.protocol == packet.protocol,
        packet@.transport == packet.transport,
        packet@.src == packet.src,
        packet@.dst == packet.dst,
        packet@.timestamp == packet.timestamp,
        packet@.payload == packet.payload@,
        match packet.capture_password {
            Some(password) => packet@.capture_password == Some(password@),
            None => packet@.capture_password is None,
        },
        match packet.correlation_id {
            Some(id) => packet@.correlation_id == Some(id@),
            None => packet@.correlation_id is None,
        },
{
}

/// A copy of an optional string.
pub(crate) fn clone_opt_string(text: &Option<String>) -> (copy: Option<String>)
    ensures
        opt_string(copy) == opt_string(*text),
        match text {
            Some(s) => copy matches Some(c) && c@ == s@,
            None => copy is None,
        },
{
    match text {
        Some(s) => Some(s.clone()),
        None => None,
    }
}

/// An optional string slice as an optional string.
pub(crate) fn own_opt_str(text: Option<&str>) -> (copy: Option<String>)
    ensures
        opt_string(copy) == opt_str(text),
        match text {
            Some(s) => copy matches Some(c) && c@ == s@,
            None => copy is None,
        },
{
    match text {
        Some(s) => Some(s.to_owned()),
        None => None,
    }
}

} // verus!

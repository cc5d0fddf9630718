use vstd::prelude::*;

verus! {

/// Logical direction of one packet relative to the exchange it belongs to.
#[derive(Clone, Copy, Debug, PartialEq, Eq, Structural)]
pub enum PacketDirection {
    ClientToServer,
    ServerToClient,
}

/// Transport protocol of the captured packet; application parsing only
/// applies to TCP payloads.
#[derive(Clone, Copy, Debug, PartialEq, Eq, Structural)]
pub enum IpProtocol {
    Tcp,
    Udp,
    Other,
}

/// Numeric tag of a transport protocol as exported records carry it:
/// the IANA protocol numbers for TCP and UDP.
pub open spec fn spec_ip_protocol_code(p: IpProtocol) -> u8 {
    match p {
        IpProtocol::Tcp => 6,
        IpProtocol::Udp => 17,
        IpProtocol::Other => 0,
    }
}

pub fn ip_protocol_code(p: IpProtocol) -> (r: u8)
    ensures
        r == spec_ip_protocol_code(p),
{
    match p {
        IpProtocol::Tcp => 6,
        IpProtocol::Udp => 17,
        IpProtocol::Other => 0,
    }
}

/// Application-layer protocol tag carried in every classification head.
#[derive(Clone, Copy, Debug, PartialEq, Eq, Structural)]
pub enum L7Protocol {
    Unknown,
    Http1,
    Http2,
    Dns,
    Mysql,
    Redis,
    Kafka,
    Mqtt,
    Dubbo,
}

impl Default for L7Protocol {
    fn default() -> (r: Self)
        ensures
            r == L7Protocol::Unknown,
    {
        L7Protocol::Unknown
    }
}

/// Numeric tag of a protocol as it appears in exported records and in the
/// session-aggregation key.
pub open spec fn spec_l7_protocol_code(p: L7Protocol) -> u8 {
    match p {
        L7Protocol::Unknown => 0,
        L7Protocol::Http1 => 20,
        L7Protocol::Http2 => 21,
        L7Protocol::Dubbo => 40,
        L7Protocol::Mysql => 60,
        L7Protocol::Redis => 80,
        L7Protocol::Kafka => 100,
        L7Protocol::Mqtt => 120,
        L7Protocol::Dns => 140,
    }
}

pub fn l7_protocol_code(p: L7Protocol) -> (r: u8)
    ensures
        r == spec_l7_protocol_code(p),
{
    match p {
        L7Protocol::Unknown => 0,
        L7Protocol::Http1 => 20,
        L7Protocol::Http2 => 21,
        L7Protocol::Dubbo => 40,
        L7Protocol::Mysql => 60,
        L7Protocol::Redis => 80,
        L7Protocol::Kafka => 100,
        L7Protocol::Mqtt => 120,
        L7Protocol::Dns => 140,
    }
}

/// Kind of capture point that produced the packet.
#[derive(Clone, Copy, Debug, PartialEq, Eq, Structural)]
pub enum TapType {
    Any,
    Tor,
}

pub open spec fn spec_tap_type_code(t: TapType) -> u16 {
    match t {
        TapType::Any => 0,
        TapType::Tor => 3,
    }
}

pub fn tap_type_code(t: TapType) -> (r: u16)
    ensures
        r == spec_tap_type_code(t),
{
    match t {
        TapType::Any => 0,
        TapType::Tor => 3,
    }
}

/// Which side of the observed exchange the capture interface sits on.
#[derive(Clone, Copy, Debug, PartialEq, Eq, Structural)]
pub enum TapSide {
    Rest,
    ClientProcess,
    ServerProcess,
}

pub open spec fn spec_tap_side_code(t: TapSide) -> u8 {
    match t {
        TapSide::Rest => 0,
        TapSide::ClientProcess => 1,
        TapSide::ServerProcess => 2,
    }
}

pub fn tap_side_code(t: TapSide) -> (r: u8)
    ensures
        r == spec_tap_side_code(t),
{
    match t {
        TapSide::Rest => 0,
        TapSide::ClientProcess => 1,
        TapSide::ServerProcess => 2,
    }
}

/// An endpoint address, either IPv4 (network-order 32-bit value) or IPv6
/// (16 raw bytes).  Held as plain values so that contracts can speak about
/// every byte of it.
#[derive(Clone, Copy, Debug)]
pub enum IpAddress {
    V4(u32),
    V6([u8; 16]),
}

impl IpAddress {
    pub open spec fn spec_is_ipv6(self) -> bool {
        self is V6
    }

    pub fn is_ipv6(&self) -> (r: bool)
        ensures
            r == self.spec_is_ipv6(),
    {
        match self {
            IpAddress::V4(_) => false,
            IpAddress::V6(_) => true,
        }
    }
}

/// One captured packet as the parsing core sees it: transport metadata,
/// process/syscall identifiers gathered at capture time, and the raw L4
/// payload (absent when the capture carried no payload bytes).
#[derive(Clone, Debug)]
pub struct MetaPacket {
    /// Capture timestamp in nanoseconds.
    pub timestamp: u64,
    /// Transport protocol of the packet.
    pub proto: IpProtocol,
    /// Direction this packet travelled, as decided by the flow map.
    pub direction: PacketDirection,
    pub src_mac: u64,
    pub dst_mac: u64,
    pub src_ip: IpAddress,
    pub dst_ip: IpAddress,
    pub src_port: u16,
    pub dst_port: u16,
    /// True when the source / destination endpoint is the local one.
    pub l2_end_0: bool,
    pub l2_end_1: bool,
    /// Socket identifier used as the flow id of exported records.
    pub socket_id: u64,
    pub tap_port: u32,
    pub process_id: u32,
    /// Kernel process name bytes of the capturing side.
    pub process_kname: Vec<u8>,
    pub syscall_trace_id: u64,
    pub thread_id: u32,
    pub cap_seq: u64,
    /// First TCP sequence number seen in this packet's direction.
    pub tcp_seq: u32,
    /// Raw L4 payload; `None` when the packet carried none.
    pub l4_payload: Option<Vec<u8>>,
}

impl MetaPacket {
    /// The L4 payload, if the packet carried any.
    pub fn get_l4_payload(&self) -> (r: Option<&Vec<u8>>)
        ensures
            r is Some <==> self.l4_payload is Some,
            r matches Some(p) ==> self.l4_payload matches Some(q) && p == q,
    {
        self.l4_payload.as_ref()
    }
}

} // verus!

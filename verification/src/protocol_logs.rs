use vstd::prelude::*;

use crate::common::{
    spec_l7_protocol_code, IpAddress, IpProtocol, L7Protocol, MetaPacket, PacketDirection, TapSide,
    TapType,
};
use crate::error::Error;

verus! {

/// Outcome classification of one application-layer exchange.
#[derive(Clone, Copy, Debug, PartialEq, Eq, Structural)]
pub enum L7ResponseStatus {
    Normal,
    Error,
    NotExist,
    ServerError,
    ClientError,
}

impl Default for L7ResponseStatus {
    fn default() -> (r: Self)
        ensures
            r == L7ResponseStatus::Normal,
    {
        L7ResponseStatus::Normal
    }
}

pub open spec fn spec_response_status_code(s: L7ResponseStatus) -> u8 {
    match s {
        L7ResponseStatus::Normal => 0,
        L7ResponseStatus::Error => 1,
        L7ResponseStatus::NotExist => 2,
        L7ResponseStatus::ServerError => 3,
        L7ResponseStatus::ClientError => 4,
    }
}

pub fn response_status_code(s: L7ResponseStatus) -> (r: u8)
    ensures
        r == spec_response_status_code(s),
{
    match s {
        L7ResponseStatus::Normal => 0,
        L7ResponseStatus::Error => 1,
        L7ResponseStatus::NotExist => 2,
        L7ResponseStatus::ServerError => 3,
        L7ResponseStatus::ClientError => 4,
    }
}

/// Role of one parsed message within its exchange.
#[derive(Clone, Copy, Debug, PartialEq, Eq, Structural)]
pub enum LogMessageType {
    Request,
    Response,
    Session,
    Other,
    Max,
}

impl Default for LogMessageType {
    fn default() -> (r: Self)
        ensures
            r == LogMessageType::Other,
    {
        LogMessageType::Other
    }
}

impl From<PacketDirection> for LogMessageType {
    fn from(d: PacketDirection) -> (r: LogMessageType)
        ensures
            r == spec_message_type_of_direction(d),
    {
        match d {
            PacketDirection::ClientToServer => LogMessageType::Request,
            PacketDirection::ServerToClient => LogMessageType::Response,
        }
    }
}

impl vstd::std_specs::convert::FromSpecImpl<PacketDirection> for LogMessageType {
    open spec fn obeys_from_spec() -> bool {
        true
    }

    open spec fn from_spec(d: PacketDirection) -> LogMessageType {
        spec_message_type_of_direction(d)
    }
}

/// A client-to-server packet is a request, a server-to-client one a
/// response.
pub open spec fn spec_message_type_of_direction(d: PacketDirection) -> LogMessageType {
    match d {
        PacketDirection::ClientToServer => LogMessageType::Request,
        PacketDirection::ServerToClient => LogMessageType::Response,
    }
}

pub open spec fn spec_message_type_code(t: LogMessageType) -> u8 {
    match t {
        LogMessageType::Request => 0,
        LogMessageType::Response => 1,
        LogMessageType::Session => 2,
        LogMessageType::Other => 3,
        LogMessageType::Max => 4,
    }
}

pub fn message_type_code(t: LogMessageType) -> (r: u8)
    ensures
        r == spec_message_type_code(t),
{
    match t {
        LogMessageType::Request => 0,
        LogMessageType::Response => 1,
        LogMessageType::Session => 2,
        LogMessageType::Other => 3,
        LogMessageType::Max => 4,
    }
}

/// Classification head produced for every parsed message: protocol tag,
/// message role, status classification, raw status code, round-trip time
/// in microseconds (zero when no correlation was found) and protocol
/// version.
#[derive(Clone, Copy, Debug, PartialEq, Eq, Structural)]
pub struct AppProtoHead {
    pub proto: L7Protocol,
    pub msg_type: LogMessageType,
    pub status: L7ResponseStatus,
    pub code: u16,
    pub rrt: u64,
    pub version: u8,
}

impl Default for AppProtoHead {
    fn default() -> (r: Self)
        ensures
            r == (AppProtoHead {
                proto: L7Protocol::Unknown,
                msg_type: LogMessageType::Other,
                status: L7ResponseStatus::Normal,
                code: 0,
                rrt: 0,
                version: 0,
            }),
    {
        AppProtoHead {
            proto: L7Protocol::Unknown,
            msg_type: LogMessageType::Other,
            status: L7ResponseStatus::Normal,
            code: 0,
            rrt: 0,
            version: 0,
        }
    }
}

/// Envelope of flow and packet context built once per parsed message:
/// timestamps, tap metadata, L2/L3/L4 addresses of both endpoints,
/// internal-network identifiers, first-seen TCP sequence numbers and the
/// process/syscall identifiers gathered at capture time.  Always held in
/// canonical client-to-server orientation.
#[derive(Clone, Debug)]
pub struct AppProtoLogsBaseInfo {
    pub start_time: u64,
    pub end_time: u64,
    pub flow_id: u64,
    pub tap_port: u32,
    pub vtap_id: u16,
    pub tap_type: TapType,
    pub is_ipv6: bool,
    pub tap_side: TapSide,
    pub head: AppProtoHead,
    pub mac_src: u64,
    pub mac_dst: u64,
    pub ip_src: IpAddress,
    pub ip_dst: IpAddress,
    pub l3_epc_id_src: i32,
    pub l3_epc_id_dst: i32,
    pub port_src: u16,
    pub port_dst: u16,
    pub req_tcp_seq: u32,
    pub resp_tcp_seq: u32,
    pub process_id_0: u32,
    pub process_id_1: u32,
    pub process_kname_0: Vec<u8>,
    pub process_kname_1: Vec<u8>,
    pub syscall_trace_id_request: u64,
    pub syscall_trace_id_response: u64,
    pub syscall_trace_id_thread_0: u32,
    pub syscall_trace_id_thread_1: u32,
    pub syscall_cap_seq_0: u64,
    pub syscall_cap_seq_1: u64,
    pub protocol: IpProtocol,
    pub is_vip_interface_src: bool,
    pub is_vip_interface_dst: bool,
}

/// Logical direction of an eBPF-captured packet: client-to-server when
/// the far endpoint is the side running the local service.
pub open spec fn spec_ebpf_direction(p: MetaPacket, is_local_service: bool) -> PacketDirection {
    if p.l2_end_1 == is_local_service {
        PacketDirection::ClientToServer
    } else {
        PacketDirection::ServerToClient
    }
}

/// Everything `from_ebpf` promises of the envelope it builds: every
/// field is drawn from the packet, the head and the collaborator
/// accessors; a server-to-client packet has all paired fields swapped
/// back into client-to-server orientation.
pub open spec fn spec_from_ebpf_post(
    r: AppProtoLogsBaseInfo,
    p: MetaPacket,
    head: AppProtoHead,
    vtap_id: u16,
    local_epc: i32,
    remote_epc: i32,
    is_local_service: bool,
) -> bool {
    let is_src = p.l2_end_0;
    let dir = spec_ebpf_direction(p, is_local_service);
    let swapped = dir is ServerToClient;
    &&& r.start_time == p.timestamp
    &&& r.end_time == p.timestamp
    &&& r.flow_id == p.socket_id
    &&& r.tap_port == p.tap_port
    &&& r.vtap_id == vtap_id
    &&& r.tap_type == TapType::Tor
    &&& r.is_ipv6 == p.dst_ip.spec_is_ipv6()
    &&& r.head == head
    &&& r.protocol == p.proto
    &&& r.is_vip_interface_src == false
    &&& r.is_vip_interface_dst == false
    &&& r.syscall_trace_id_request == if !swapped {
        p.syscall_trace_id
    } else {
        0
    }
    &&& r.syscall_trace_id_response == if swapped {
        p.syscall_trace_id
    } else {
        0
    }
    &&& r.req_tcp_seq == if !swapped {
        p.tcp_seq
    } else {
        0
    }
    &&& r.resp_tcp_seq == if swapped {
        p.tcp_seq
    } else {
        0
    }
    &&& r.syscall_trace_id_thread_0 == if !swapped {
        p.thread_id
    } else {
        0
    }
    &&& r.syscall_trace_id_thread_1 == if swapped {
        p.thread_id
    } else {
        0
    }
    &&& r.syscall_cap_seq_0 == if !swapped {
        p.cap_seq
    } else {
        0
    }
    &&& r.syscall_cap_seq_1 == if swapped {
        p.cap_seq
    } else {
        0
    }
    &&& r.tap_side == if is_src == swapped {
        TapSide::ServerProcess
    } else {
        TapSide::ClientProcess
    }
    &&& r.mac_src == if !swapped {
        p.src_mac
    } else {
        p.dst_mac
    }
    &&& r.mac_dst == if !swapped {
        p.dst_mac
    } else {
        p.src_mac
    }
    &&& r.ip_src == if !swapped {
        p.src_ip
    } else {
        p.dst_ip
    }
    &&& r.ip_dst == if !swapped {
        p.dst_ip
    } else {
        p.src_ip
    }
    &&& r.port_src == if !swapped {
        p.src_port
    } else {
        p.dst_port
    }
    &&& r.port_dst == if !swapped {
        p.dst_port
    } else {
        p.src_port
    }
    &&& r.l3_epc_id_src == if is_src != swapped {
        local_epc
    } else {
        remote_epc
    }
    &&& r.l3_epc_id_dst == if is_src != swapped {
        remote_epc
    } else {
        local_epc
    }
    &&& r.process_id_0 == if is_src != swapped {
        p.process_id
    } else {
        0
    }
    &&& r.process_id_1 == if is_src == swapped {
        p.process_id
    } else {
        0
    }
    &&& r.process_kname_0@ == if is_src != swapped {
        p.process_kname@
    } else {
        Seq::<u8>::empty()
    }
    &&& r.process_kname_1@ == if is_src == swapped {
        p.process_kname@
    } else {
        Seq::<u8>::empty()
    }
}

/// Everything `merge` promises of the merged envelope `r`, built from
/// the earlier-arriving record `a` and the incoming record `b`: known
/// process identifiers are never overwritten by unknown ones, the
/// response-side slots are adopted, the end time is extended, the record
/// becomes a session and the incoming side's status wins.
pub open spec fn spec_base_merge_post(
    r: AppProtoLogsBaseInfo,
    a: AppProtoLogsBaseInfo,
    b: AppProtoLogsBaseInfo,
) -> bool {
    &&& r.process_id_0 == if b.process_id_0 > 0 {
        b.process_id_0
    } else {
        a.process_id_0
    }
    &&& r.process_kname_0@ == if b.process_id_0 > 0 {
        b.process_kname_0@
    } else {
        a.process_kname_0@
    }
    &&& r.process_id_1 == if b.process_id_1 > 0 {
        b.process_id_1
    } else {
        a.process_id_1
    }
    &&& r.process_kname_1@ == if b.process_id_1 > 0 {
        b.process_kname_1@
    } else {
        a.process_kname_1@
    }
    &&& r.syscall_trace_id_thread_1 == b.syscall_trace_id_thread_1
    &&& r.syscall_cap_seq_1 == b.syscall_cap_seq_1
    &&& r.end_time == if b.end_time > a.start_time {
        b.end_time
    } else {
        a.start_time
    }
    &&& r.resp_tcp_seq == b.resp_tcp_seq
    &&& r.syscall_trace_id_response == b.syscall_trace_id_response
    &&& r.head.msg_type == LogMessageType::Session
    &&& r.head.code == b.head.code
    &&& r.head.status == b.head.status
    &&& r.head.rrt == b.head.rrt
    &&& r.head.proto == a.head.proto
    &&& r.head.version == a.head.version
    &&& r.start_time == a.start_time
    &&& r.flow_id == a.flow_id
    &&& r.tap_port == a.tap_port
    &&& r.vtap_id == a.vtap_id
    &&& r.tap_type == a.tap_type
    &&& r.is_ipv6 == a.is_ipv6
    &&& r.tap_side == a.tap_side
    &&& r.mac_src == a.mac_src
    &&& r.mac_dst == a.mac_dst
    &&& r.ip_src == a.ip_src
    &&& r.ip_dst == a.ip_dst
    &&& r.l3_epc_id_src == a.l3_epc_id_src
    &&& r.l3_epc_id_dst == a.l3_epc_id_dst
    &&& r.port_src == a.port_src
    &&& r.port_dst == a.port_dst
    &&& r.req_tcp_seq == a.req_tcp_seq
    &&& r.syscall_trace_id_request == a.syscall_trace_id_request
    &&& r.syscall_trace_id_thread_0 == a.syscall_trace_id_thread_0
    &&& r.syscall_cap_seq_0 == a.syscall_cap_seq_0
    &&& r.protocol == a.protocol
    &&& r.is_vip_interface_src == a.is_vip_interface_src
    &&& r.is_vip_interface_dst == a.is_vip_interface_dst
}

impl AppProtoLogsBaseInfo {
    /// Builds one envelope from an eBPF-captured packet, its
    /// classification head and the collaborator-supplied identifiers,
    /// swapping a server-to-client packet's paired fields back into
    /// client-to-server orientation.
    pub fn from_ebpf(
        packet: &MetaPacket,
        head: AppProtoHead,
        vtap_id: u16,
        local_epc: i32,
        remote_epc: i32,
        is_local_service: bool,
    ) -> (r: Self)
        ensures
            spec_from_ebpf_post(
                r,
                *packet,
                head,
                vtap_id,
                local_epc,
                remote_epc,
                is_local_service,
            ),
    {
        let is_src = packet.l2_end_0;
        let swapped = !(packet.l2_end_1 == is_local_service);
        let kname_0: Vec<u8> = if is_src != swapped {
            packet.process_kname.clone()
        } else {
            Vec::new()
        };
        let kname_1: Vec<u8> = if is_src == swapped {
            packet.process_kname.clone()
        } else {
            Vec::new()
        };
        proof {
            if is_src != swapped {
                assert(kname_0@ =~= packet.process_kname@);
                assert(kname_1@ =~= Seq::<u8>::empty());
            } else {
                assert(kname_0@ =~= Seq::<u8>::empty());
                assert(kname_1@ =~= packet.process_kname@);
            }
        }
        AppProtoLogsBaseInfo {
            start_time: packet.timestamp,
            end_time: packet.timestamp,
            flow_id: packet.socket_id,
            tap_port: packet.tap_port,
            vtap_id,
            tap_type: TapType::Tor,
            is_ipv6: packet.dst_ip.is_ipv6(),
            tap_side: if is_src == swapped {
                TapSide::ServerProcess
            } else {
                TapSide::ClientProcess
            },
            head,
            mac_src: if !swapped {
                packet.src_mac
            } else {
                packet.dst_mac
            },
            mac_dst: if !swapped {
                packet.dst_mac
            } else {
                packet.src_mac
            },
            ip_src: if !swapped {
                packet.src_ip
            } else {
                packet.dst_ip
            },
            ip_dst: if !swapped {
                packet.dst_ip
            } else {
                packet.src_ip
            },
            l3_epc_id_src: if is_src != swapped {
                local_epc
            } else {
                remote_epc
            },
            l3_epc_id_dst: if is_src != swapped {
                remote_epc
            } else {
                local_epc
            },
            port_src: if !swapped {
                packet.src_port
            } else {
                packet.dst_port
            },
            port_dst: if !swapped {
                packet.dst_port
            } else {
                packet.src_port
            },
            req_tcp_seq: if !swapped {
                packet.tcp_seq
            } else {
                0
            },
            resp_tcp_seq: if swapped {
                packet.tcp_seq
            } else {
                0
            },
            process_id_0: if is_src != swapped {
                packet.process_id
            } else {
                0
            },
            process_id_1: if is_src == swapped {
                packet.process_id
            } else {
                0
            },
            process_kname_0: kname_0,
            process_kname_1: kname_1,
            syscall_trace_id_request: if !swapped {
                packet.syscall_trace_id
            } else {
                0
            },
            syscall_trace_id_response: if swapped {
                packet.syscall_trace_id
            } else {
                0
            },
            syscall_trace_id_thread_0: if !swapped {
                packet.thread_id
            } else {
                0
            },
            syscall_trace_id_thread_1: if swapped {
                packet.thread_id
            } else {
                0
            },
            syscall_cap_seq_0: if !swapped {
                packet.cap_seq
            } else {
                0
            },
            syscall_cap_seq_1: if swapped {
                packet.cap_seq
            } else {
                0
            },
            protocol: packet.proto,
            is_vip_interface_src: false,
            is_vip_interface_dst: false,
        }
    }

    /// Merges the incoming record of the same exchange into this one:
    /// the receiver is the earlier-arriving side, the incoming side
    /// carries the response status.
    pub fn merge(&mut self, log: AppProtoLogsBaseInfo)
        ensures
            spec_base_merge_post(*final(self), *old(self), log),
    {
        if log.process_id_0 > 0 {
            self.process_id_0 = log.process_id_0;
            self.process_kname_0 = log.process_kname_0;
        }
        if log.process_id_1 > 0 {
            self.process_id_1 = log.process_id_1;
            self.process_kname_1 = log.process_kname_1;
        }
        self.syscall_trace_id_thread_1 = log.syscall_trace_id_thread_1;
        self.syscall_cap_seq_1 = log.syscall_cap_seq_1;
        self.end_time = if log.end_time > self.start_time {
            log.end_time
        } else {
            self.start_time
        };
        self.resp_tcp_seq = log.resp_tcp_seq;
        self.syscall_trace_id_response = log.syscall_trace_id_response;
        self.head.msg_type = LogMessageType::Session;
        self.head.code = log.head.code;
        self.head.status = log.head.status;
        self.head.rrt = log.head.rrt;
    }
}

/// HTTP-specific message facts carried beside the envelope.
#[derive(Clone, Debug, PartialEq, Eq, Structural)]
pub struct HttpInfo {
    /// HTTP/2 stream id of the message; zero for HTTP/1.
    pub stream_id: u32,
    /// Status code of the response side; zero on the request side.
    pub status_code: u16,
}

impl HttpInfo {
    /// Adopts the response side's status code.
    pub fn merge(&mut self, other: HttpInfo)
        ensures
            final(self).stream_id == old(self).stream_id,
            final(self).status_code == other.status_code,
    {
        self.status_code = other.status_code;
    }
}

/// DNS-specific message facts.
#[derive(Clone, Debug, PartialEq, Eq, Structural)]
pub struct DnsInfo {
    /// DNS transaction id used to correlate request and response.
    pub trans_id: u16,
}

impl DnsInfo {
    pub fn merge(&mut self, _other: DnsInfo)
        ensures
            *final(self) == *old(self),
    {
    }
}

/// MySQL-specific message facts.
#[derive(Clone, Debug, PartialEq, Eq, Structural)]
pub struct MysqlInfo {
}

impl MysqlInfo {
    pub fn merge(&mut self, _other: MysqlInfo)
        ensures
            *final(self) == *old(self),
    {
    }
}

/// Redis-specific message facts.
#[derive(Clone, Debug, PartialEq, Eq, Structural)]
pub struct RedisInfo {
}

impl RedisInfo {
    pub fn merge(&mut self, _other: RedisInfo)
        ensures
            *final(self) == *old(self),
    {
    }
}

/// Kafka-specific message facts.
#[derive(Clone, Debug, PartialEq, Eq, Structural)]
pub struct KafkaInfo {
    /// Kafka correlation id used to pair request and response.
    pub correlation_id: u32,
}

impl KafkaInfo {
    pub fn merge(&mut self, _other: KafkaInfo)
        ensures
            *final(self) == *old(self),
    {
    }
}

/// MQTT-specific message facts.
#[derive(Clone, Debug, PartialEq, Eq, Structural)]
pub struct MqttInfo {
}

impl MqttInfo {
    pub fn merge(&mut self, _other: MqttInfo)
        ensures
            *final(self) == *old(self),
    {
    }
}

/// Dubbo-specific message facts.
#[derive(Clone, Debug, PartialEq, Eq, Structural)]
pub struct DubboInfo {
    /// Dubbo serial id used to pair request and response.
    pub serial_id: u32,
}

impl DubboInfo {
    pub fn merge(&mut self, _other: DubboInfo)
        ensures
            *final(self) == *old(self),
    {
    }
}

/// Protocol-specific half of an exported record: one variant per
/// supported protocol.
#[derive(Clone, Debug, PartialEq, Eq, Structural)]
pub enum AppProtoLogsInfo {
    Dns(DnsInfo),
    Mysql(MysqlInfo),
    Redis(RedisInfo),
    Kafka(KafkaInfo),
    Mqtt(MqttInfo),
    Dubbo(DubboInfo),
    HttpV1(HttpInfo),
    HttpV2(HttpInfo),
    HttpV1TLS(HttpInfo),
}

/// Whether two protocol-specific records belong to the same variant, so
/// that merging them is meaningful.
pub open spec fn spec_same_variant(a: AppProtoLogsInfo, b: AppProtoLogsInfo) -> bool {
    match (a, b) {
        (AppProtoLogsInfo::Dns(_), AppProtoLogsInfo::Dns(_)) => true,
        (AppProtoLogsInfo::Mysql(_), AppProtoLogsInfo::Mysql(_)) => true,
        (AppProtoLogsInfo::Redis(_), AppProtoLogsInfo::Redis(_)) => true,
        (AppProtoLogsInfo::Kafka(_), AppProtoLogsInfo::Kafka(_)) => true,
        (AppProtoLogsInfo::Mqtt(_), AppProtoLogsInfo::Mqtt(_)) => true,
        (AppProtoLogsInfo::Dubbo(_), AppProtoLogsInfo::Dubbo(_)) => true,
        (AppProtoLogsInfo::HttpV1(_), AppProtoLogsInfo::HttpV1(_)) => true,
        (AppProtoLogsInfo::HttpV2(_), AppProtoLogsInfo::HttpV2(_)) => true,
        (AppProtoLogsInfo::HttpV1TLS(_), AppProtoLogsInfo::HttpV1TLS(_)) => true,
        _ => false,
    }
}

/// The session-correlation id a protocol-specific record exposes, when
/// its protocol has one and it is set: the DNS transaction id, the Kafka
/// correlation id, the Dubbo serial id or the HTTP/2 stream id.
pub open spec fn spec_session_id(info: AppProtoLogsInfo) -> Option<u32> {
    match info {
        AppProtoLogsInfo::Dns(t) => if t.trans_id > 0 {
            Some(t.trans_id as u32)
        } else {
            None
        },
        AppProtoLogsInfo::Kafka(t) => if t.correlation_id > 0 {
            Some(t.correlation_id)
        } else {
            None
        },
        AppProtoLogsInfo::Dubbo(t) => if t.serial_id > 0 {
            Some(t.serial_id)
        } else {
            None
        },
        AppProtoLogsInfo::HttpV2(t) => if t.stream_id > 0 {
            Some(t.stream_id)
        } else {
            None
        },
        _ => None,
    }
}

/// The protocol-specific record after merging `other` of the same
/// variant into `a`.
pub open spec fn spec_info_merge(a: AppProtoLogsInfo, b: AppProtoLogsInfo) -> AppProtoLogsInfo {
    match (a, b) {
        (AppProtoLogsInfo::HttpV1(m), AppProtoLogsInfo::HttpV1(o)) => AppProtoLogsInfo::HttpV1(
            HttpInfo { stream_id: m.stream_id, status_code: o.status_code },
        ),
        (AppProtoLogsInfo::HttpV2(m), AppProtoLogsInfo::HttpV2(o)) => AppProtoLogsInfo::HttpV2(
            HttpInfo { stream_id: m.stream_id, status_code: o.status_code },
        ),
        (AppProtoLogsInfo::HttpV1TLS(m), AppProtoLogsInfo::HttpV1TLS(o)) =>
            AppProtoLogsInfo::HttpV1TLS(
            HttpInfo { stream_id: m.stream_id, status_code: o.status_code },
        ),
        _ => a,
    }
}

impl AppProtoLogsInfo {
    /// The session-correlation id this record exposes, if any.
    pub fn session_id(&self) -> (r: Option<u32>)
        ensures
            r == spec_session_id(*self),
    {
        match self {
            AppProtoLogsInfo::Dns(t) => if t.trans_id > 0 {
                Some(t.trans_id as u32)
            } else {
                None
            },
            AppProtoLogsInfo::Kafka(t) => if t.correlation_id > 0 {
                Some(t.correlation_id)
            } else {
                None
            },
            AppProtoLogsInfo::Dubbo(t) => if t.serial_id > 0 {
                Some(t.serial_id)
            } else {
                None
            },
            AppProtoLogsInfo::HttpV2(t) => if t.stream_id > 0 {
                Some(t.stream_id)
            } else {
                None
            },
            _ => None,
        }
    }

    /// Merges the same-variant record `other` into this one.  Merging
    /// records of different protocols is a programming error, excluded
    /// by precondition instead of a reachable panic.
    pub fn merge(&mut self, other: Self)
        requires
            spec_same_variant(*old(self), other),
        ensures
            *final(self) == spec_info_merge(*old(self), other),
    {
        match (&mut *self, other) {
            (AppProtoLogsInfo::Dns(m), AppProtoLogsInfo::Dns(o)) => m.merge(o),
            (AppProtoLogsInfo::Mysql(m), AppProtoLogsInfo::Mysql(o)) => m.merge(o),
            (AppProtoLogsInfo::Redis(m), AppProtoLogsInfo::Redis(o)) => m.merge(o),
            (AppProtoLogsInfo::Kafka(m), AppProtoLogsInfo::Kafka(o)) => m.merge(o),
            (AppProtoLogsInfo::Mqtt(m), AppProtoLogsInfo::Mqtt(o)) => m.merge(o),
            (AppProtoLogsInfo::Dubbo(m), AppProtoLogsInfo::Dubbo(o)) => m.merge(o),
            (AppProtoLogsInfo::HttpV1(m), AppProtoLogsInfo::HttpV1(o)) => m.merge(o),
            (AppProtoLogsInfo::HttpV2(m), AppProtoLogsInfo::HttpV2(o)) => m.merge(o),
            (AppProtoLogsInfo::HttpV1TLS(m), AppProtoLogsInfo::HttpV1TLS(o)) => m.merge(o),
            _ => {
                proof {
                    assert(false);
                }
            },
        }
    }
}

/// One exported record: the protocol-independent envelope paired with
/// the protocol-specific half.  Two records of one exchange are merged
/// into a single session record before export when correlation
/// succeeds; otherwise each is exported on its own.
#[derive(Clone, Debug)]
pub struct AppProtoLogsData {
    pub base_info: AppProtoLogsBaseInfo,
    pub special_info: AppProtoLogsInfo,
}

/// The session-aggregation key of a record: the flow id's high byte (a
/// coarse shard id) and its mid-order bits, the protocol tag at bit 24,
/// and in the low 24 bits the protocol's own session id when it exposes
/// one, else the larger capture sequence counter — incremented once for
/// a request so the pair lands on one key.
pub open spec fn spec_ebpf_flow_session_id(d: AppProtoLogsData) -> u64 {
    let flow_id_part = (d.base_info.flow_id >> 56 << 56) | (d.base_info.flow_id << 40 >> 8);
    match spec_session_id(d.special_info) {
        Some(session_id) => flow_id_part | ((spec_l7_protocol_code(d.base_info.head.proto) as u64)
            << 24) | ((session_id as u64) & 0xffffff),
        None => {
            let cap_seq = if d.base_info.syscall_cap_seq_0 > d.base_info.syscall_cap_seq_1 {
                d.base_info.syscall_cap_seq_0
            } else {
                d.base_info.syscall_cap_seq_1
            };
            let keyed = if d.base_info.head.msg_type is Request {
                (((cap_seq & 0xffffff) + 1) % 0x1000000) as u64
            } else {
                cap_seq & 0xffffff
            };
            flow_id_part | ((spec_l7_protocol_code(d.base_info.head.proto) as u64) << 24) | keyed
        },
    }
}

impl AppProtoLogsData {
    pub fn new(base_info: AppProtoLogsBaseInfo, special_info: AppProtoLogsInfo) -> (r: Self)
        ensures
            r.base_info == base_info,
            r.special_info == special_info,
    {
        Self { base_info, special_info }
    }

    /// The session-aggregation key external aggregation joins on to find
    /// the two records of one exchange.  Collision-unlikely within a
    /// flow's lifetime, not collision-free.
    pub fn ebpf_flow_session_id(&self) -> (r: u64)
        ensures
            r == spec_ebpf_flow_session_id(*self),
    {
        let flow_id_part: u64 = (self.base_info.flow_id >> 56u64 << 56u64) | (
        self.base_info.flow_id << 40u64 >> 8u64);
        let proto_part: u64 = (crate::common::l7_protocol_code(self.base_info.head.proto) as u64)
            << 24u64;
        match self.special_info.session_id() {
            Some(session_id) => flow_id_part | proto_part | ((session_id as u64) & 0xffffff),
            None => {
                let cap_seq: u64 = if self.base_info.syscall_cap_seq_0
                    > self.base_info.syscall_cap_seq_1 {
                    self.base_info.syscall_cap_seq_0
                } else {
                    self.base_info.syscall_cap_seq_1
                };
                let low: u64 = cap_seq & 0xffffff;
                proof {
                    assert(cap_seq & 0xffffff <= 0xffffff) by (bit_vector);
                    assert((low + 1) as u64 & 0xffffff == ((low + 1) as u64) % 0x1000000)
                        by (bit_vector);
                }
                let keyed: u64 = if matches!(self.base_info.head.msg_type, LogMessageType::Request) {
                    (low + 1) & 0xffffff
                } else {
                    low
                };
                flow_id_part | proto_part | keyed
            },
        }
    }

    /// Merges the matching record of the same exchange into this one,
    /// yielding the single session record that is exported.
    pub fn session_merge(&mut self, log: AppProtoLogsData)
        requires
            spec_same_variant(old(self).special_info, log.special_info),
        ensures
            spec_base_merge_post(final(self).base_info, old(self).base_info, log.base_info),
            final(self).special_info == spec_info_merge(old(self).special_info, log.special_info),
    {
        self.base_info.merge(log.base_info);
        self.special_info.merge(log.special_info);
    }
}

/// The contract every protocol's log parser implements: interpret one
/// payload, handing back the per-message classification head, and expose
/// the protocol-specific record of the most recent message.
pub trait L7LogParse {
    fn parse(
        &mut self,
        payload: &[u8],
        proto: IpProtocol,
        direction: PacketDirection,
    ) -> Result<AppProtoHead, Error>;

    fn info(&self) -> AppProtoLogsInfo;
}

/// Merging a request-side envelope with its response-side envelope
/// yields a session record whose status is the response's and whose end
/// time lies at or after both records' start times.
pub proof fn lemma_merge_yields_session(
    merged: AppProtoLogsBaseInfo,
    request: AppProtoLogsBaseInfo,
    response: AppProtoLogsBaseInfo,
)
    requires
        spec_base_merge_post(merged, request, response),
        response.end_time >= response.start_time,
    ensures
        merged.head.msg_type == LogMessageType::Session,
        merged.head.status == response.head.status,
        merged.head.code == response.head.code,
        merged.end_time >= request.start_time,
        merged.end_time >= response.start_time,
{
}

} // verus!

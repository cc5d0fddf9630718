use vstd::prelude::*;

use crate::common::{l7_protocol_code, spec_l7_protocol_code, tap_side_code, tap_type_code,
    spec_tap_side_code, spec_tap_type_code, IpAddress};
use crate::error::Error;
use crate::protocol_logs::{
    message_type_code, response_status_code, spec_message_type_code, spec_response_status_code,
    AppProtoHead, AppProtoLogsBaseInfo, AppProtoLogsData, AppProtoLogsInfo,
};

verus! {

/// The LEB128 encoding of an unsigned value: seven bits per byte, least
/// significant group first, the high bit marking continuation.
pub open spec fn spec_varint(v: u64) -> Seq<u8>
    decreases v,
{
    if v < 128 {
        seq![v as u8]
    } else {
        seq![((v % 128) + 128) as u8] + spec_varint((v / 128) as u64)
    }
}

/// Relies on `prost::encoding::encode_varint`: the value is appended to
/// the buffer in LEB128 variable-length format, least significant seven
/// bits first.
#[verifier::external_body]
fn encode_varint(value: u64, buf: &mut Vec<u8>)
    ensures
        final(buf)@ == old(buf)@ + spec_varint(value),
{
    prost::encoding::encode_varint(value, buf)
}

/// The zigzag mapping of a signed 32-bit value onto an unsigned one:
/// small magnitudes of either sign stay small.
pub open spec fn spec_zigzag32(v: i32) -> u64 {
    if v >= 0 {
        (2 * v) as u64
    } else {
        (2 * (-(v as int)) - 1) as u64
    }
}

/// A varint-encoded field: key (field number, wire type 0) then value.
/// Zero values are omitted, as a default-skipping wire format does.
pub open spec fn spec_uint_field(field: u64, value: u64) -> Seq<u8> {
    if value == 0 {
        Seq::empty()
    } else {
        spec_varint((field * 8) as u64) + spec_varint(value)
    }
}

/// A zigzag-encoded signed field; zero is omitted.
pub open spec fn spec_sint_field(field: u64, value: i32) -> Seq<u8> {
    spec_uint_field(field, spec_zigzag32(value))
}

/// A length-delimited field: key (wire type 2), byte count, raw bytes.
/// Empty contents are omitted.
pub open spec fn spec_bytes_field(field: u64, data: Seq<u8>) -> Seq<u8> {
    if data.len() == 0 {
        Seq::empty()
    } else {
        spec_varint((field * 8 + 2) as u64) + spec_varint(data.len() as u64) + data
    }
}

/// An embedded message field: always emitted, so a present-but-empty
/// message stays distinguishable from an absent one.
pub open spec fn spec_msg_field(field: u64, payload: Seq<u8>) -> Seq<u8> {
    spec_varint((field * 8 + 2) as u64) + spec_varint(payload.len() as u64) + payload
}

/// Largest field number the encoder emits; keys then fit well inside one
/// varint's numeric range.
pub const MAX_FIELD_NUMBER: u64 = 64;

fn put_uint_field(field: u64, value: u64, buf: &mut Vec<u8>)
    requires
        field <= MAX_FIELD_NUMBER,
    ensures
        final(buf)@ == old(buf)@ + spec_uint_field(field, value),
{
    if value != 0 {
        encode_varint(field * 8, buf);
        encode_varint(value, buf);
    } else {
        proof {
            assert(final(buf)@ =~= old(buf)@ + Seq::<u8>::empty());
        }
    }
}

fn put_sint_field(field: u64, value: i32, buf: &mut Vec<u8>)
    requires
        field <= MAX_FIELD_NUMBER,
    ensures
        final(buf)@ == old(buf)@ + spec_sint_field(field, value),
{
    let zz: u64 = if value >= 0 {
        2 * (value as u64)
    } else {
        2 * ((-(value as i64)) as u64) - 1
    };
    put_uint_field(field, zz, buf);
}

fn put_bytes_field(field: u64, data: &[u8], buf: &mut Vec<u8>)
    requires
        field <= MAX_FIELD_NUMBER,
    ensures
        final(buf)@ == old(buf)@ + spec_bytes_field(field, data@),
{
    if data.len() != 0 {
        let ghost b0 = buf@;
        encode_varint(field * 8 + 2, buf);
        encode_varint(data.len() as u64, buf);
        buf.extend_from_slice(data);
        proof {
            assert(final(buf)@ =~= b0 + spec_bytes_field(field, data@));
        }
    } else {
        proof {
            assert(final(buf)@ =~= old(buf)@ + Seq::<u8>::empty());
        }
    }
}

fn put_msg_field(field: u64, payload: &[u8], buf: &mut Vec<u8>)
    requires
        field <= MAX_FIELD_NUMBER,
    ensures
        final(buf)@ == old(buf)@ + spec_msg_field(field, payload@),
{
    let ghost b0 = buf@;
    encode_varint(field * 8 + 2, buf);
    encode_varint(payload.len() as u64, buf);
    buf.extend_from_slice(payload);
    proof {
        assert(final(buf)@ =~= b0 + spec_msg_field(field, payload@));
    }
}

/// The IPv4 value of an address: zero for an IPv6 address, whose bytes
/// go out through the companion field.
pub open spec fn spec_ip4_of(ip: IpAddress) -> u64 {
    match ip {
        IpAddress::V4(x) => x as u64,
        IpAddress::V6(_) => 0,
    }
}

/// The IPv6 bytes of an address: sixteen unspecified (zero) bytes for an
/// IPv4 address, so the field is always present with a fixed width.
pub open spec fn spec_ip6_of(ip: IpAddress) -> Seq<u8> {
    match ip {
        IpAddress::V4(_) => Seq::new(16, |i: int| 0u8),
        IpAddress::V6(b) => b@,
    }
}

/// A head's round-trip time as exported: the internal microseconds
/// scaled to nanoseconds, held at the 64-bit maximum instead of
/// wrapping.
pub open spec fn spec_rrt_nanos(rrt_micros: u64) -> u64 {
    if rrt_micros <= 0xffff_ffff_ffff_ffffu64 / 1000 {
        (rrt_micros * 1000) as u64
    } else {
        0xffff_ffff_ffff_ffffu64
    }
}

/// The wire encoding of a classification head: protocol tag, message
/// type, status class, status code and round-trip time in nanoseconds,
/// in fields one to five.
pub open spec fn spec_head_bytes(h: AppProtoHead) -> Seq<u8> {
    spec_uint_field(1, spec_l7_protocol_code(h.proto) as u64) + spec_uint_field(
        2,
        spec_message_type_code(h.msg_type) as u64,
    ) + spec_uint_field(3, spec_response_status_code(h.status) as u64) + spec_uint_field(
        4,
        h.code as u64,
    ) + spec_uint_field(5, spec_rrt_nanos(h.rrt))
}

/// Encodes a classification head on its own, for embedding.
fn head_bytes(h: &AppProtoHead) -> (r: Vec<u8>)
    ensures
        r@ == spec_head_bytes(*h),
{
    let mut buf: Vec<u8> = Vec::new();
    proof {
        assert(buf@ =~= Seq::<u8>::empty());
    }
    let ghost e1 = spec_uint_field(1, spec_l7_protocol_code(h.proto) as u64);
    let ghost e2 = e1 + spec_uint_field(2, spec_message_type_code(h.msg_type) as u64);
    let ghost e3 = e2 + spec_uint_field(3, spec_response_status_code(h.status) as u64);
    let ghost e4 = e3 + spec_uint_field(4, h.code as u64);
    put_uint_field(1, l7_protocol_code(h.proto) as u64, &mut buf);
    proof {
        assert(buf@ =~= e1);
    }
    put_uint_field(2, message_type_code(h.msg_type) as u64, &mut buf);
    proof {
        assert(buf@ =~= e2);
    }
    put_uint_field(3, response_status_code(h.status) as u64, &mut buf);
    proof {
        assert(buf@ =~= e3);
    }
    put_uint_field(4, h.code as u64, &mut buf);
    proof {
        assert(buf@ =~= e4);
    }
    let rrt_nanos: u64 = if h.rrt <= 0xffff_ffff_ffff_ffffu64 / 1000 {
        h.rrt * 1000
    } else {
        0xffff_ffff_ffff_ffffu64
    };
    put_uint_field(5, rrt_nanos, &mut buf);
    proof {
        assert(buf@ =~= spec_head_bytes(*h));
    }
    buf
}

/// The wire encoding of the protocol-independent envelope: timestamps,
/// flow and tap identity, the embedded head, canonical addressing for
/// both endpoints (the IPv6 companion fields always present, zeroed for
/// IPv4), correlation sequence numbers and capture-side process
/// identity (capture sequence counters truncated to 32 bits on the
/// wire), in fields one to thirty-four.
pub open spec fn spec_base_bytes(b: AppProtoLogsBaseInfo) -> Seq<u8> {
    spec_uint_field(1, b.start_time) + spec_uint_field(2, b.end_time) + spec_uint_field(
        3,
        b.flow_id,
    ) + spec_uint_field(4, b.tap_port as u64) + spec_uint_field(5, b.vtap_id as u64)
        + spec_uint_field(6, spec_tap_type_code(b.tap_type) as u64) + spec_uint_field(
        7,
        if b.is_ipv6 {
            1u64
        } else {
            0u64
        },
    ) + spec_uint_field(8, spec_tap_side_code(b.tap_side) as u64) + spec_msg_field(
        9,
        spec_head_bytes(b.head),
    ) + spec_uint_field(10, b.mac_src) + spec_uint_field(11, b.mac_dst) + spec_uint_field(
        12,
        spec_ip4_of(b.ip_src),
    ) + spec_uint_field(13, spec_ip4_of(b.ip_dst)) + spec_bytes_field(14, spec_ip6_of(b.ip_src))
        + spec_bytes_field(15, spec_ip6_of(b.ip_dst)) + spec_sint_field(16, b.l3_epc_id_src)
        + spec_sint_field(17, b.l3_epc_id_dst) + spec_uint_field(18, b.port_src as u64)
        + spec_uint_field(19, b.port_dst as u64) + spec_uint_field(20, b.req_tcp_seq as u64)
        + spec_uint_field(21, b.resp_tcp_seq as u64) + spec_uint_field(22, b.process_id_0 as u64)
        + spec_uint_field(23, b.process_id_1 as u64) + spec_bytes_field(24, b.process_kname_0@)
        + spec_bytes_field(25, b.process_kname_1@) + spec_uint_field(
        26,
        b.syscall_trace_id_request,
    ) + spec_uint_field(27, b.syscall_trace_id_response) + spec_uint_field(
        28,
        b.syscall_trace_id_thread_0 as u64,
    ) + spec_uint_field(29, b.syscall_trace_id_thread_1 as u64) + spec_uint_field(
        30,
        (b.syscall_cap_seq_0 % 0x1_0000_0000) as u64,
    ) + spec_uint_field(31, (b.syscall_cap_seq_1 % 0x1_0000_0000) as u64) + spec_uint_field(
        32,
        crate::common::spec_ip_protocol_code(b.protocol) as u64,
    ) + spec_uint_field(
        33,
        if b.is_vip_interface_src {
            1u64
        } else {
            0u64
        },
    ) + spec_uint_field(
        34,
        if b.is_vip_interface_dst {
            1u64
        } else {
            0u64
        },
    )
}

/// Encodes the envelope on its own, for embedding.
fn base_bytes(b: &AppProtoLogsBaseInfo) -> (r: Vec<u8>)
    ensures
        r@ == spec_base_bytes(*b),
{
    let mut buf: Vec<u8> = Vec::new();
    let ghost mut acc = Seq::<u8>::empty();
    proof {
        assert(buf@ =~= acc);
    }
    put_uint_field(1, b.start_time, &mut buf);
    proof {
        acc = acc + spec_uint_field(1, b.start_time);
        assert(buf@ =~= acc);
    }
    put_uint_field(2, b.end_time, &mut buf);
    proof {
        acc = acc + spec_uint_field(2, b.end_time);
        assert(buf@ =~= acc);
    }
    put_uint_field(3, b.flow_id, &mut buf);
    proof {
        acc = acc + spec_uint_field(3, b.flow_id);
        assert(buf@ =~= acc);
    }
    put_uint_field(4, b.tap_port as u64, &mut buf);
    proof {
        acc = acc + spec_uint_field(4, b.tap_port as u64);
        assert(buf@ =~= acc);
    }
    put_uint_field(5, b.vtap_id as u64, &mut buf);
    proof {
        acc = acc + spec_uint_field(5, b.vtap_id as u64);
        assert(buf@ =~= acc);
    }
    put_uint_field(6, tap_type_code(b.tap_type) as u64, &mut buf);
    proof {
        acc = acc + spec_uint_field(6, spec_tap_type_code(b.tap_type) as u64);
        assert(buf@ =~= acc);
    }
    put_uint_field(
        7,
        if b.is_ipv6 {
            1
        } else {
            0
        },
        &mut buf,
    );
    proof {
        acc = acc + spec_uint_field(
            7,
            if b.is_ipv6 {
                1u64
            } else {
                0u64
            },
        );
        assert(buf@ =~= acc);
    }
    put_uint_field(8, tap_side_code(b.tap_side) as u64, &mut buf);
    proof {
        acc = acc + spec_uint_field(8, spec_tap_side_code(b.tap_side) as u64);
        assert(buf@ =~= acc);
    }
    let head = head_bytes(&b.head);
    put_msg_field(9, head.as_slice(), &mut buf);
    proof {
        acc = acc + spec_msg_field(9, spec_head_bytes(b.head));
        assert(buf@ =~= acc);
    }
    put_uint_field(10, b.mac_src, &mut buf);
    proof {
        acc = acc + spec_uint_field(10, b.mac_src);
        assert(buf@ =~= acc);
    }
    put_uint_field(11, b.mac_dst, &mut buf);
    proof {
        acc = acc + spec_uint_field(11, b.mac_dst);
        assert(buf@ =~= acc);
    }
    let ip4_src: u64 = match &b.ip_src {
        IpAddress::V4(x) => *x as u64,
        IpAddress::V6(_) => 0,
    };
    put_uint_field(12, ip4_src, &mut buf);
    proof {
        acc = acc + spec_uint_field(12, spec_ip4_of(b.ip_src));
        assert(buf@ =~= acc);
    }
    let ip4_dst: u64 = match &b.ip_dst {
        IpAddress::V4(x) => *x as u64,
        IpAddress::V6(_) => 0,
    };
    put_uint_field(13, ip4_dst, &mut buf);
    proof {
        acc = acc + spec_uint_field(13, spec_ip4_of(b.ip_dst));
        assert(buf@ =~= acc);
    }
    match &b.ip_src {
        IpAddress::V4(_) => {
            let zeros: Vec<u8> = vec![0u8; 16];
            proof {
                assert(zeros@ =~= Seq::new(16, |i: int| 0u8));
            }
            put_bytes_field(14, zeros.as_slice(), &mut buf);
            proof {
                acc = acc + spec_bytes_field(14, spec_ip6_of(b.ip_src));
                assert(buf@ =~= acc);
            }
        },
        IpAddress::V6(bytes) => {
            put_bytes_field(14, bytes.as_slice(), &mut buf);
            proof {
                acc = acc + spec_bytes_field(14, spec_ip6_of(b.ip_src));
                assert(buf@ =~= acc);
            }
        },
    }
    match &b.ip_dst {
        IpAddress::V4(_) => {
            let zeros: Vec<u8> = vec![0u8; 16];
            proof {
                assert(zeros@ =~= Seq::new(16, |i: int| 0u8));
            }
            put_bytes_field(15, zeros.as_slice(), &mut buf);
            proof {
                acc = acc + spec_bytes_field(15, spec_ip6_of(b.ip_dst));
                assert(buf@ =~= acc);
            }
        },
        IpAddress::V6(bytes) => {
            put_bytes_field(15, bytes.as_slice(), &mut buf);
            proof {
                acc = acc + spec_bytes_field(15, spec_ip6_of(b.ip_dst));
                assert(buf@ =~= acc);
            }
        },
    }
    put_sint_field(16, b.l3_epc_id_src, &mut buf);
    proof {
        acc = acc + spec_sint_field(16, b.l3_epc_id_src);
        assert(buf@ =~= acc);
    }
    put_sint_field(17, b.l3_epc_id_dst, &mut buf);
    proof {
        acc = acc + spec_sint_field(17, b.l3_epc_id_dst);
        assert(buf@ =~= acc);
    }
    put_uint_field(18, b.port_src as u64, &mut buf);
    proof {
        acc = acc + spec_uint_field(18, b.port_src as u64);
        assert(buf@ =~= acc);
    }
    put_uint_field(19, b.port_dst as u64, &mut buf);
    proof {
        acc = acc + spec_uint_field(19, b.port_dst as u64);
        assert(buf@ =~= acc);
    }
    put_uint_field(20, b.req_tcp_seq as u64, &mut buf);
    proof {
        acc = acc + spec_uint_field(20, b.req_tcp_seq as u64);
        assert(buf@ =~= acc);
    }
    put_uint_field(21, b.resp_tcp_seq as u64, &mut buf);
    proof {
        acc = acc + spec_uint_field(21, b.resp_tcp_seq as u64);
        assert(buf@ =~= acc);
    }
    put_uint_field(22, b.process_id_0 as u64, &mut buf);
    proof {
        acc = acc + spec_uint_field(22, b.process_id_0 as u64);
        assert(buf@ =~= acc);
    }
    put_uint_field(23, b.process_id_1 as u64, &mut buf);
    proof {
        acc = acc + spec_uint_field(23, b.process_id_1 as u64);
        assert(buf@ =~= acc);
    }
    put_bytes_field(24, b.process_kname_0.as_slice(), &mut buf);
    proof {
        acc = acc + spec_bytes_field(24, b.process_kname_0@);
        assert(buf@ =~= acc);
    }
    put_bytes_field(25, b.process_kname_1.as_slice(), &mut buf);
    proof {
        acc = acc + spec_bytes_field(25, b.process_kname_1@);
        assert(buf@ =~= acc);
    }
    put_uint_field(26, b.syscall_trace_id_request, &mut buf);
    proof {
        acc = acc + spec_uint_field(26, b.syscall_trace_id_request);
        assert(buf@ =~= acc);
    }
    put_uint_field(27, b.syscall_trace_id_response, &mut buf);
    proof {
        acc = acc + spec_uint_field(27, b.syscall_trace_id_response);
        assert(buf@ =~= acc);
    }
    put_uint_field(28, b.syscall_trace_id_thread_0 as u64, &mut buf);
    proof {
        acc = acc + spec_uint_field(28, b.syscall_trace_id_thread_0 as u64);
        assert(buf@ =~= acc);
    }
    put_uint_field(29, b.syscall_trace_id_thread_1 as u64, &mut buf);
    proof {
        acc = acc + spec_uint_field(29, b.syscall_trace_id_thread_1 as u64);
        assert(buf@ =~= acc);
    }
    put_uint_field(30, b.syscall_cap_seq_0 % 0x1_0000_0000, &mut buf);
    proof {
        acc = acc + spec_uint_field(30, (b.syscall_cap_seq_0 % 0x1_0000_0000) as u64);
        assert(buf@ =~= acc);
    }
    put_uint_field(31, b.syscall_cap_seq_1 % 0x1_0000_0000, &mut buf);
    proof {
        acc = acc + spec_uint_field(31, (b.syscall_cap_seq_1 % 0x1_0000_0000) as u64);
        assert(buf@ =~= acc);
    }
    put_uint_field(32, crate::common::ip_protocol_code(b.protocol) as u64, &mut buf);
    proof {
        acc = acc + spec_uint_field(32, crate::common::spec_ip_protocol_code(b.protocol) as u64);
        assert(buf@ =~= acc);
    }
    put_uint_field(
        33,
        if b.is_vip_interface_src {
            1
        } else {
            0
        },
        &mut buf,
    );
    proof {
        acc = acc + spec_uint_field(
            33,
            if b.is_vip_interface_src {
                1u64
            } else {
                0u64
            },
        );
        assert(buf@ =~= acc);
    }
    put_uint_field(
        34,
        if b.is_vip_interface_dst {
            1
        } else {
            0
        },
        &mut buf,
    );
    proof {
        acc = acc + spec_uint_field(
            34,
            if b.is_vip_interface_dst {
                1u64
            } else {
                0u64
            },
        );
        assert(buf@ =~= acc);
        assert(acc =~= spec_base_bytes(*b));
    }
    buf
}

/// The wire encoding of the protocol-specific half, as the embedded
/// message's own bytes.
pub open spec fn spec_info_payload(info: AppProtoLogsInfo) -> Seq<u8> {
    match info {
        AppProtoLogsInfo::Dns(t) => spec_uint_field(1, t.trans_id as u64),
        AppProtoLogsInfo::Mysql(_) => Seq::empty(),
        AppProtoLogsInfo::Redis(_) => Seq::empty(),
        AppProtoLogsInfo::Kafka(t) => spec_uint_field(1, t.correlation_id as u64),
        AppProtoLogsInfo::Mqtt(_) => Seq::empty(),
        AppProtoLogsInfo::Dubbo(t) => spec_uint_field(1, t.serial_id as u64),
        AppProtoLogsInfo::HttpV1(t) => spec_uint_field(1, t.stream_id as u64) + spec_uint_field(
            2,
            t.status_code as u64,
        ),
        AppProtoLogsInfo::HttpV2(t) => spec_uint_field(1, t.stream_id as u64) + spec_uint_field(
            2,
            t.status_code as u64,
        ),
        AppProtoLogsInfo::HttpV1TLS(t) => spec_uint_field(1, t.stream_id as u64) + spec_uint_field(
            2,
            t.status_code as u64,
        ),
    }
}

/// The field number the protocol-specific message goes out under: one
/// field per protocol family, beside the envelope in field one.
pub open spec fn spec_info_field_number(info: AppProtoLogsInfo) -> u64 {
    match info {
        AppProtoLogsInfo::Dns(_) => 2,
        AppProtoLogsInfo::Mysql(_) => 3,
        AppProtoLogsInfo::Redis(_) => 4,
        AppProtoLogsInfo::Kafka(_) => 5,
        AppProtoLogsInfo::Mqtt(_) => 6,
        AppProtoLogsInfo::Dubbo(_) => 7,
        AppProtoLogsInfo::HttpV1(_) => 8,
        AppProtoLogsInfo::HttpV2(_) => 8,
        AppProtoLogsInfo::HttpV1TLS(_) => 8,
    }
}

/// Encodes the protocol-specific half on its own, for embedding.
fn info_payload(info: &AppProtoLogsInfo) -> (r: Vec<u8>)
    ensures
        r@ == spec_info_payload(*info),
{
    let mut buf: Vec<u8> = Vec::new();
    proof {
        assert(buf@ =~= Seq::<u8>::empty());
    }
    match info {
        AppProtoLogsInfo::Dns(t) => {
            put_uint_field(1, t.trans_id as u64, &mut buf);
        },
        AppProtoLogsInfo::Mysql(_) => {},
        AppProtoLogsInfo::Redis(_) => {},
        AppProtoLogsInfo::Kafka(t) => {
            put_uint_field(1, t.correlation_id as u64, &mut buf);
        },
        AppProtoLogsInfo::Mqtt(_) => {},
        AppProtoLogsInfo::Dubbo(t) => {
            put_uint_field(1, t.serial_id as u64, &mut buf);
        },
        AppProtoLogsInfo::HttpV1(t) => {
            let ghost e1 = spec_uint_field(1, t.stream_id as u64);
            put_uint_field(1, t.stream_id as u64, &mut buf);
            proof {
                assert(buf@ =~= e1);
            }
            put_uint_field(2, t.status_code as u64, &mut buf);
        },
        AppProtoLogsInfo::HttpV2(t) => {
            let ghost e1 = spec_uint_field(1, t.stream_id as u64);
            put_uint_field(1, t.stream_id as u64, &mut buf);
            proof {
                assert(buf@ =~= e1);
            }
            put_uint_field(2, t.status_code as u64, &mut buf);
        },
        AppProtoLogsInfo::HttpV1TLS(t) => {
            let ghost e1 = spec_uint_field(1, t.stream_id as u64);
            put_uint_field(1, t.stream_id as u64, &mut buf);
            proof {
                assert(buf@ =~= e1);
            }
            put_uint_field(2, t.status_code as u64, &mut buf);
        },
    }
    buf
}

/// The whole wire encoding of one exported record: the envelope as
/// embedded message one, the protocol-specific message under its
/// protocol family's field.
pub open spec fn spec_data_bytes(d: AppProtoLogsData) -> Seq<u8> {
    spec_msg_field(1, spec_base_bytes(d.base_info)) + spec_msg_field(
        spec_info_field_number(d.special_info),
        spec_info_payload(d.special_info),
    )
}

impl AppProtoLogsData {
    /// Appends the record's wire encoding to the caller's buffer and
    /// reports how many bytes were appended.  With a growable buffer the
    /// encoder itself has no failure case left; the result type is the
    /// seam the transport's own failures surface through.
    #[verifier::rlimit(60)]
    pub fn encode(self, buf: &mut Vec<u8>) -> (r: Result<usize, Error>)
        ensures
            final(buf)@ == old(buf)@ + spec_data_bytes(self),
            r matches Ok(n) && n == spec_data_bytes(self).len(),
    {
        let start = buf.len();
        let ghost b0 = buf@;
        let base = base_bytes(&self.base_info);
        put_msg_field(1, base.as_slice(), buf);
        proof {
            assert(buf@ =~= b0 + spec_msg_field(1, spec_base_bytes(self.base_info)));
        }
        let payload = info_payload(&self.special_info);
        let field: u64 = match &self.special_info {
            AppProtoLogsInfo::Dns(_) => 2,
            AppProtoLogsInfo::Mysql(_) => 3,
            AppProtoLogsInfo::Redis(_) => 4,
            AppProtoLogsInfo::Kafka(_) => 5,
            AppProtoLogsInfo::Mqtt(_) => 6,
            AppProtoLogsInfo::Dubbo(_) => 7,
            AppProtoLogsInfo::HttpV1(_) => 8,
            AppProtoLogsInfo::HttpV2(_) => 8,
            AppProtoLogsInfo::HttpV1TLS(_) => 8,
        };
        put_msg_field(field, payload.as_slice(), buf);
        proof {
            assert(buf@ =~= b0 + spec_data_bytes(self));
        }
        Ok(buf.len() - start)
    }
}

} // verus!

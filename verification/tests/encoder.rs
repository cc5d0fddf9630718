use l7flow::common::{IpAddress, IpProtocol, L7Protocol, MetaPacket, PacketDirection};
use l7flow::protocol_logs::{
    AppProtoHead, AppProtoLogsBaseInfo, AppProtoLogsData, AppProtoLogsInfo, HttpInfo,
    L7ResponseStatus, LogMessageType,
};
use l7flow::sender::{Encoder, Header, SendMessageType, SenderCounter, PROTOCOL_LOG_VERSION};

fn sample_record() -> AppProtoLogsData {
    let p = MetaPacket {
        timestamp: 1111,
        proto: IpProtocol::Tcp,
        direction: PacketDirection::ClientToServer,
        src_mac: 1,
        dst_mac: 2,
        src_ip: IpAddress::V4(0x7f000001),
        dst_ip: IpAddress::V4(0x7f000002),
        src_port: 1234,
        dst_port: 80,
        l2_end_0: true,
        l2_end_1: true,
        socket_id: 99,
        tap_port: 0,
        process_id: 7,
        process_kname: b"curl".to_vec(),
        syscall_trace_id: 1,
        thread_id: 2,
        cap_seq: 3,
        tcp_seq: 4,
        l4_payload: None,
    };
    let head = AppProtoHead {
        proto: L7Protocol::Http1,
        msg_type: LogMessageType::Session,
        status: L7ResponseStatus::Normal,
        code: 200,
        rrt: 84051,
        version: 0,
    };
    let base = AppProtoLogsBaseInfo::from_ebpf(&p, head, 1, 3, 4, true);
    AppProtoLogsData::new(base, AppProtoLogsInfo::HttpV1(HttpInfo {
        stream_id: 0,
        status_code: 200,
    }))
}

#[test]
fn encode_reports_appended_length() {
    let mut buf = vec![0xEEu8; 3];
    let n = sample_record().encode(&mut buf).unwrap();
    assert_eq!(buf.len(), 3 + n);
    assert_eq!(&buf[..3], &[0xEE, 0xEE, 0xEE]);
    // The record opens with the envelope's embedded-message key:
    // field 1, wire type 2.
    assert_eq!(buf[3], 0x0A);
    assert!(n > 0);
}

#[test]
fn encode_is_deterministic() {
    let mut a = Vec::new();
    let mut b = Vec::new();
    sample_record().encode(&mut a).unwrap();
    sample_record().encode(&mut b).unwrap();
    assert_eq!(a, b);
}

#[test]
fn header_encodes_nineteen_bytes() {
    let h = Header {
        frame_size: 0x01020304,
        msg_type: SendMessageType::ProtocolLog,
        version: 5,
        sequence: 0x0605040302010009,
        vtap_id: 0x1122,
    };
    let mut buf = Vec::new();
    h.encode(&mut buf);
    assert_eq!(buf.len(), 19);
    // Frame size is big-endian so the receiver reads it first.
    assert_eq!(&buf[0..4], &[1, 2, 3, 4]);
    assert_eq!(buf[4], 2); // payload kind tag
    assert_eq!(&buf[5..9], &[5, 0, 0, 0]); // version, little-endian
    assert_eq!(&buf[9..17], &[9, 0, 1, 2, 3, 4, 5, 6]); // sequence
    assert_eq!(&buf[17..19], &[0x22, 0x11]); // agent id
}

#[test]
fn cache_to_sender_frames_records() {
    let mut encoder = Encoder::new(0, SendMessageType::TaggedFlow, 7);
    assert_eq!(encoder.buffer_len(), 0);

    encoder.cache_to_sender(sample_record());
    // The first record stamps kind and version and opens the frame.
    assert_eq!(encoder.header.msg_type, SendMessageType::ProtocolLog);
    assert_eq!(encoder.header.version, PROTOCOL_LOG_VERSION);
    assert_eq!(encoder.header.sequence, 1);

    let mut lone = Vec::new();
    let n = sample_record().encode(&mut lone).unwrap();
    // Frame so far: 19 header bytes, 4 length bytes, the record.
    assert_eq!(encoder.buffer_len(), 19 + 4 + n);

    encoder.set_header_frame_size();
    let frame = encoder.get_buffer();
    assert_eq!(encoder.buffer_len(), 0);
    let total = frame.len() as u32;
    assert_eq!(&frame[0..4], &total.to_be_bytes());
    // The length prefix before the record, little-endian.
    assert_eq!(&frame[19..23], &(n as u32).to_le_bytes());
    assert_eq!(&frame[23..], &lone[..]);

    // A second record extends the open frame without a new header.
    encoder.cache_to_sender(sample_record());
    assert_eq!(encoder.header.sequence, 2);
    encoder.cache_to_sender(sample_record());
    assert_eq!(encoder.header.sequence, 2);
    assert_eq!(encoder.buffer_len(), 19 + 2 * (4 + n));
}

fn minimal_base() -> AppProtoLogsBaseInfo {
    AppProtoLogsBaseInfo {
        start_time: 0,
        end_time: 0,
        flow_id: 0,
        tap_port: 0,
        vtap_id: 0,
        tap_type: l7flow::common::TapType::Any,
        is_ipv6: false,
        tap_side: l7flow::common::TapSide::Rest,
        head: AppProtoHead {
            proto: L7Protocol::Unknown,
            msg_type: LogMessageType::Request,
            status: L7ResponseStatus::Normal,
            code: 0,
            rrt: 0,
            version: 0,
        },
        mac_src: 0,
        mac_dst: 0,
        ip_src: IpAddress::V4(0),
        ip_dst: IpAddress::V4(0),
        l3_epc_id_src: 0,
        l3_epc_id_dst: 0,
        port_src: 0,
        port_dst: 0,
        req_tcp_seq: 0,
        resp_tcp_seq: 0,
        process_id_0: 0,
        process_id_1: 0,
        process_kname_0: Vec::new(),
        process_kname_1: Vec::new(),
        syscall_trace_id_request: 0,
        syscall_trace_id_response: 0,
        syscall_trace_id_thread_0: 0,
        syscall_trace_id_thread_1: 0,
        syscall_cap_seq_0: 0,
        syscall_cap_seq_1: 0,
        protocol: IpProtocol::Other,
        is_vip_interface_src: false,
        is_vip_interface_dst: false,
    }
}

/// The always-present IPv6 companion fields of a minimal record: field
/// 14 then field 15, sixteen zero bytes each.
fn zero_ip6_fields() -> Vec<u8> {
    let mut v = vec![0x72u8, 0x10];
    v.extend_from_slice(&[0u8; 16]);
    v.push(0x7A);
    v.push(0x10);
    v.extend_from_slice(&[0u8; 16]);
    v
}

#[test]
fn exact_wire_bytes_of_a_minimal_record() {
    // Every field zero except a start time of 300, which needs a
    // two-byte varint: the whole record's bytes are known exactly.
    let mut base = minimal_base();
    base.start_time = 300;
    let record = AppProtoLogsData::new(
        base,
        AppProtoLogsInfo::HttpV1(HttpInfo { stream_id: 0, status_code: 0 }),
    );
    let mut buf = Vec::new();
    let n = record.encode(&mut buf).unwrap();

    let mut want = vec![
        0x0A, 0x29, // envelope: field 1, 41 bytes
        0x08, 0xAC, 0x02, // start time 300 as a two-byte varint
        0x4A, 0x00, // embedded head: field 9, empty
    ];
    want.extend_from_slice(&zero_ip6_fields());
    want.push(0x42); // HTTP record: field 8, empty
    want.push(0x00);
    assert_eq!(n, want.len());
    assert_eq!(buf, want);
}

#[test]
fn head_rrt_exported_in_nanoseconds() {
    // A round-trip time of 2 microseconds goes out as 2000 nanoseconds:
    // head field 5 carries the two-byte varint of 2000.
    let mut base = minimal_base();
    base.head.rrt = 2;
    let record = AppProtoLogsData::new(
        base,
        AppProtoLogsInfo::HttpV1(HttpInfo { stream_id: 0, status_code: 0 }),
    );
    let mut buf = Vec::new();
    let n = record.encode(&mut buf).unwrap();

    let mut want = vec![
        0x0A, 0x29, // envelope: field 1, 41 bytes
        0x4A, 0x03, 0x28, 0xD0, 0x0F, // head: field 5 holds varint 2000
    ];
    want.extend_from_slice(&zero_ip6_fields());
    want.push(0x42);
    want.push(0x00);
    assert_eq!(n, want.len());
    assert_eq!(buf, want);
}

#[test]
fn capture_sequences_truncated_to_32_bits_on_the_wire() {
    let mut base = minimal_base();
    base.syscall_cap_seq_0 = 0x1_0000_0002; // low 32 bits: 2
    let record = AppProtoLogsData::new(
        base,
        AppProtoLogsInfo::HttpV1(HttpInfo { stream_id: 0, status_code: 0 }),
    );
    let mut buf = Vec::new();
    let n = record.encode(&mut buf).unwrap();

    let mut want = vec![
        0x0A, 0x29, // envelope: field 1, 41 bytes
        0x4A, 0x00, // embedded head: field 9, empty
    ];
    want.extend_from_slice(&zero_ip6_fields());
    want.extend_from_slice(&[0xF0, 0x01, 0x02]); // field 30 carries 2
    want.push(0x42);
    want.push(0x00);
    assert_eq!(n, want.len());
    assert_eq!(buf, want);
}

#[test]
fn counters_read_out_and_reset() {
    let mut c = SenderCounter { rx: 5, tx: 6, tx_bytes: 700, dropped: 1 };
    assert_eq!(c.get_counters(), vec![5, 6, 700, 1]);
    assert_eq!(c, SenderCounter { rx: 0, tx: 0, tx_bytes: 0, dropped: 0 });
    assert_eq!(c.get_counters(), vec![0, 0, 0, 0]);
}

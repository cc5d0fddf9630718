use l7flow::common::{IpAddress, IpProtocol, L7Protocol, MetaPacket, PacketDirection, TapSide};
use l7flow::protocol_logs::{
    AppProtoHead, AppProtoLogsBaseInfo, AppProtoLogsData, AppProtoLogsInfo, DnsInfo, HttpInfo,
    KafkaInfo, L7ResponseStatus, LogMessageType,
};

fn ebpf_packet(direction_to_server: bool, timestamp: u64, cap_seq: u64) -> MetaPacket {
    MetaPacket {
        timestamp,
        proto: IpProtocol::Tcp,
        direction: PacketDirection::ClientToServer,
        src_mac: 0x0a0b0c0d0e0f,
        dst_mac: 0x010203040506,
        src_ip: IpAddress::V4(0xc0a80001),
        dst_ip: IpAddress::V4(0xc0a80002),
        src_port: 50000,
        dst_port: 443,
        l2_end_0: true,
        // l2_end_1 == is_local_service (true below) means client→server.
        l2_end_1: direction_to_server,
        socket_id: 0xab00000012345678,
        tap_port: 9,
        process_id: 4242,
        process_kname: b"nginx".to_vec(),
        syscall_trace_id: 777,
        thread_id: 31,
        cap_seq,
        tcp_seq: 1000,
        l4_payload: None,
    }
}

fn head(msg_type: LogMessageType, status: L7ResponseStatus, code: u16, rrt: u64) -> AppProtoHead {
    AppProtoHead { proto: L7Protocol::Http1, msg_type, status, code, rrt, version: 0 }
}

#[test]
fn from_ebpf_keeps_client_to_server_orientation() {
    let p = ebpf_packet(true, 111, 5);
    let h = head(LogMessageType::Request, L7ResponseStatus::Normal, 0, 0);
    let info = AppProtoLogsBaseInfo::from_ebpf(&p, h, 42, 10, 20, true);
    assert_eq!(info.start_time, 111);
    assert_eq!(info.end_time, 111);
    assert_eq!(info.flow_id, p.socket_id);
    assert_eq!(info.vtap_id, 42);
    assert_eq!(info.mac_src, p.src_mac);
    assert_eq!(info.port_src, 50000);
    assert_eq!(info.port_dst, 443);
    assert_eq!(info.l3_epc_id_src, 10);
    assert_eq!(info.l3_epc_id_dst, 20);
    assert_eq!(info.process_id_0, 4242);
    assert_eq!(info.process_id_1, 0);
    assert_eq!(info.process_kname_0, b"nginx".to_vec());
    assert_eq!(info.process_kname_1, Vec::<u8>::new());
    assert_eq!(info.tap_side, TapSide::ClientProcess);
    assert_eq!(info.req_tcp_seq, 1000);
    assert_eq!(info.resp_tcp_seq, 0);
    assert_eq!(info.syscall_trace_id_request, 777);
    assert_eq!(info.syscall_trace_id_response, 0);
    assert_eq!(info.syscall_cap_seq_0, 5);
    assert_eq!(info.syscall_cap_seq_1, 0);
}

#[test]
fn from_ebpf_swaps_server_to_client_packets() {
    let p = ebpf_packet(false, 222, 6);
    let h = head(LogMessageType::Response, L7ResponseStatus::Normal, 200, 9);
    let info = AppProtoLogsBaseInfo::from_ebpf(&p, h, 42, 10, 20, true);
    // Addressing is swapped back into client→server orientation.
    assert_eq!(info.mac_src, p.dst_mac);
    assert_eq!(info.mac_dst, p.src_mac);
    assert_eq!(info.port_src, 443);
    assert_eq!(info.port_dst, 50000);
    assert_eq!(info.l3_epc_id_src, 20);
    assert_eq!(info.l3_epc_id_dst, 10);
    // The capturing side's process identity moves to slot one.
    assert_eq!(info.process_id_0, 0);
    assert_eq!(info.process_id_1, 4242);
    assert_eq!(info.process_kname_1, b"nginx".to_vec());
    assert_eq!(info.tap_side, TapSide::ServerProcess);
    // Response-side correlation slots are populated instead.
    assert_eq!(info.req_tcp_seq, 0);
    assert_eq!(info.resp_tcp_seq, 1000);
    assert_eq!(info.syscall_trace_id_response, 777);
    assert_eq!(info.syscall_cap_seq_0, 0);
    assert_eq!(info.syscall_cap_seq_1, 6);
}

#[test]
fn merge_yields_client_error_session() {
    let req_packet = ebpf_packet(true, 1000, 8);
    let resp_packet = ebpf_packet(false, 5000, 9);
    let request = AppProtoLogsBaseInfo::from_ebpf(
        &req_packet,
        head(LogMessageType::Request, L7ResponseStatus::Normal, 0, 0),
        42,
        10,
        20,
        true,
    );
    let response = AppProtoLogsBaseInfo::from_ebpf(
        &resp_packet,
        head(LogMessageType::Response, L7ResponseStatus::ClientError, 404, 4000),
        42,
        10,
        20,
        true,
    );
    let mut merged = request.clone();
    merged.merge(response.clone());
    assert_eq!(merged.head.msg_type, LogMessageType::Session);
    assert_eq!(merged.head.status, L7ResponseStatus::ClientError);
    assert_eq!(merged.head.code, 404);
    assert_eq!(merged.head.rrt, 4000);
    assert!(merged.end_time >= request.start_time);
    assert!(merged.end_time >= response.start_time);
    assert_eq!(merged.end_time, 5000);
    assert_eq!(merged.resp_tcp_seq, response.resp_tcp_seq);
    // Both sides' process identity is now known.
    assert_eq!(merged.process_id_0, 4242);
    assert_eq!(merged.process_id_1, 4242);
}

#[test]
fn session_ids_come_from_the_protocol() {
    let http2 = AppProtoLogsInfo::HttpV2(HttpInfo { stream_id: 5, status_code: 0 });
    assert_eq!(http2.session_id(), Some(5));
    let http1 = AppProtoLogsInfo::HttpV1(HttpInfo { stream_id: 5, status_code: 0 });
    assert_eq!(http1.session_id(), None);
    let dns = AppProtoLogsInfo::Dns(DnsInfo { trans_id: 7 });
    assert_eq!(dns.session_id(), Some(7));
    let idle_kafka = AppProtoLogsInfo::Kafka(KafkaInfo { correlation_id: 0 });
    assert_eq!(idle_kafka.session_id(), None);
}

fn record(
    msg_type: LogMessageType,
    cap_seq_0: u64,
    cap_seq_1: u64,
    info: AppProtoLogsInfo,
) -> AppProtoLogsData {
    let p = ebpf_packet(true, 0, 0);
    let mut base = AppProtoLogsBaseInfo::from_ebpf(
        &p,
        head(msg_type, L7ResponseStatus::Normal, 0, 0),
        42,
        10,
        20,
        true,
    );
    base.head.msg_type = msg_type;
    base.syscall_cap_seq_0 = cap_seq_0;
    base.syscall_cap_seq_1 = cap_seq_1;
    AppProtoLogsData::new(base, info)
}

#[test]
fn request_and_response_share_an_aggregation_key() {
    // Captured one sequence number apart, without a protocol session id:
    // the request's key is bumped by one so the pair lands together.
    let info = AppProtoLogsInfo::HttpV1(HttpInfo { stream_id: 0, status_code: 0 });
    let request = record(LogMessageType::Request, 40, 0, info.clone());
    let response = record(LogMessageType::Response, 0, 41, info.clone());
    assert_eq!(request.ebpf_flow_session_id(), response.ebpf_flow_session_id());

    // With a protocol session id, both sides use it directly.
    let with_id = AppProtoLogsInfo::HttpV2(HttpInfo { stream_id: 9, status_code: 0 });
    let request = record(LogMessageType::Request, 40, 0, with_id.clone());
    let response = record(LogMessageType::Response, 0, 41, with_id.clone());
    assert_eq!(request.ebpf_flow_session_id(), response.ebpf_flow_session_id());

    // The key carries the flow id's high byte and the protocol tag.
    let key = request.ebpf_flow_session_id();
    assert_eq!(key >> 56, 0xab);
    assert_eq!((key >> 24) & 0xff, 20); // HTTP/1 protocol tag
    assert_eq!(key & 0xffffff, 9);
}

#[test]
fn session_merge_combines_both_halves() {
    let request = record(
        LogMessageType::Request,
        40,
        0,
        AppProtoLogsInfo::HttpV1(HttpInfo { stream_id: 0, status_code: 0 }),
    );
    let mut merged = request;
    let response = record(
        LogMessageType::Response,
        0,
        41,
        AppProtoLogsInfo::HttpV1(HttpInfo { stream_id: 0, status_code: 502 }),
    );
    merged.session_merge(response);
    assert_eq!(merged.base_info.head.msg_type, LogMessageType::Session);
    assert_eq!(
        merged.special_info,
        AppProtoLogsInfo::HttpV1(HttpInfo { stream_id: 0, status_code: 502 })
    );
}

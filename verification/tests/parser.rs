use l7flow::common::{IpAddress, IpProtocol, MetaPacket, PacketDirection};
use l7flow::error::Error;
use l7flow::perf::{HttpPerfData, HttpSessionData};
use l7flow::perf_stats::PerfStats;
use l7flow::protocol_logs::{L7ResponseStatus, LogMessageType};
use l7flow::common::L7Protocol;
use l7flow::http::Httpv2Headers;
use l7flow::rrt_cache::L7RrtCache;

fn packet(
    payload: &[u8],
    timestamp: u64,
    direction: PacketDirection,
) -> MetaPacket {
    MetaPacket {
        timestamp,
        proto: IpProtocol::Tcp,
        direction,
        src_mac: 0,
        dst_mac: 0,
        src_ip: IpAddress::V4(0x0a000001),
        dst_ip: IpAddress::V4(0x0a000002),
        src_port: 45678,
        dst_port: 80,
        l2_end_0: true,
        l2_end_1: false,
        socket_id: 0,
        tap_port: 0,
        process_id: 0,
        process_kname: Vec::new(),
        syscall_trace_id: 0,
        thread_id: 0,
        cap_seq: 0,
        tcp_seq: 0,
        l4_payload: Some(payload.to_vec()),
    }
}

/// One HTTP/2 HEADERS frame with the given stream id and a one-byte
/// header block (an indexed static-table entry).
fn headers_frame(stream_id: u32, indexed: u8) -> Vec<u8> {
    let mut f = vec![0u8, 0, 1]; // 24-bit length: 1
    f.push(1); // HEADERS
    f.push(0); // no flags
    f.extend_from_slice(&stream_id.to_be_bytes());
    f.push(indexed);
    f
}

const FLOW_ID: u64 = 0x1f3c01010;

#[test]
fn check() {
    let expected = vec![
        (
            // `GET /x HTTP/1.1` at t=0, `HTTP/1.1 200 OK` 84051000 ns later
            vec![
                (
                    b"GET /x HTTP/1.1\r\nHost: a\r\n\r\n".to_vec(),
                    0u64,
                    PacketDirection::ClientToServer,
                ),
                (
                    b"HTTP/1.1 200 OK\r\nContent-Length: 0\r\n\r\n".to_vec(),
                    84051000u64,
                    PacketDirection::ServerToClient,
                ),
            ],
            HttpPerfData {
                perf_stats: Some(PerfStats {
                    req_count: 1,
                    resp_count: 1,
                    req_err_count: 0,
                    resp_err_count: 0,
                    rrt_count: 1,
                    rrt_max: 84051000,
                    rrt_last: 84051000,
                    rrt_sum: 84051000,
                }),
                session_data: HttpSessionData {
                    l7_proto: L7Protocol::Http1,
                    status_code: 200,
                    status: L7ResponseStatus::Normal,
                    has_log_data: true,
                    msg_type: LogMessageType::Response,
                    httpv2_headers: Httpv2Headers::default(),
                },
                rrt_cache: L7RrtCache::new(100),
            },
        ),
        (
            // `:method: GET` (0x82) then `:status: 200` (0x88), 2023000 ns apart
            vec![
                (headers_frame(1, 0x82), 0u64, PacketDirection::ClientToServer),
                (headers_frame(1, 0x88), 2023000u64, PacketDirection::ServerToClient),
            ],
            HttpPerfData {
                perf_stats: Some(PerfStats {
                    req_count: 1,
                    resp_count: 1,
                    req_err_count: 0,
                    resp_err_count: 0,
                    rrt_count: 1,
                    rrt_max: 2023000,
                    rrt_last: 2023000,
                    rrt_sum: 2023000,
                }),
                session_data: HttpSessionData {
                    l7_proto: L7Protocol::Http2,
                    status_code: 200,
                    status: L7ResponseStatus::Normal,
                    has_log_data: true,
                    msg_type: LogMessageType::Response,
                    httpv2_headers: Httpv2Headers::default(),
                },
                rrt_cache: L7RrtCache::new(100),
            },
        ),
    ];

    for (packets, want) in expected.iter() {
        let mut perf = HttpPerfData::new(L7RrtCache::new(100));
        for (payload, ts, dir) in packets.iter() {
            let p = packet(payload, *ts, *dir);
            let _ = perf.parse(&p, FLOW_ID);
        }
        assert_eq!(*want, perf);
    }
}

#[test]
fn malformed_start_line_falls_through() {
    // Two tokens instead of three: not an HTTP/1 request line, and not
    // HTTP/2 framing either, so classification fails without touching
    // the statistics.
    let mut perf = HttpPerfData::new(L7RrtCache::new(100));
    let p = packet(b"GET /x\r\n\r\n", 10, PacketDirection::ClientToServer);
    let r = perf.parse(&p, FLOW_ID);
    assert_eq!(r, Err(Error::HttpHeaderParseFailed));
    assert!(!perf.data_updated());
    assert!(perf.perf_stats.is_none());
}

#[test]
fn response_without_request_still_counts() {
    let mut perf = HttpPerfData::new(L7RrtCache::new(100));
    let p = packet(b"HTTP/1.1 200 OK\r\n\r\n", 500, PacketDirection::ServerToClient);
    perf.parse(&p, FLOW_ID).unwrap();
    let stats = perf.perf_stats.unwrap();
    assert_eq!(stats.resp_count, 1);
    assert_eq!(stats.req_count, 0);
    assert_eq!(stats.rrt_count, 0);
    assert_eq!(stats.rrt_sum, 0);
    assert_eq!(stats.rrt_max, 0);
    assert_eq!(stats.rrt_last, 0);
}

#[test]
fn correlation_is_at_most_once() {
    let mut perf = HttpPerfData::new(L7RrtCache::new(100));
    let req = packet(b"GET / HTTP/1.1\r\n\r\n", 100, PacketDirection::ClientToServer);
    perf.parse(&req, FLOW_ID).unwrap();
    let resp = packet(b"HTTP/1.1 200 OK\r\n\r\n", 300, PacketDirection::ServerToClient);
    perf.parse(&resp, FLOW_ID).unwrap();
    // A duplicate response finds no cached request: counted, no new RTT.
    let dup = packet(b"HTTP/1.1 200 OK\r\n\r\n", 400, PacketDirection::ServerToClient);
    perf.parse(&dup, FLOW_ID).unwrap();
    let stats = perf.perf_stats.unwrap();
    assert_eq!(stats.resp_count, 2);
    assert_eq!(stats.rrt_count, 1);
    assert_eq!(stats.rrt_sum, 200);
    assert_eq!(stats.rrt_last, 0);
}

#[test]
fn out_of_order_response_excluded_from_rtt() {
    let mut perf = HttpPerfData::new(L7RrtCache::new(100));
    let req = packet(b"GET / HTTP/1.1\r\n\r\n", 1000, PacketDirection::ClientToServer);
    perf.parse(&req, FLOW_ID).unwrap();
    // The response's timestamp precedes the cached request timestamp.
    let resp = packet(b"HTTP/1.1 200 OK\r\n\r\n", 900, PacketDirection::ServerToClient);
    perf.parse(&resp, FLOW_ID).unwrap();
    let stats = perf.perf_stats.unwrap();
    assert_eq!(stats.resp_count, 1);
    assert_eq!(stats.rrt_count, 0);
    assert_eq!(stats.rrt_last, 0);
}

#[test]
fn http2_multiplexed_streams_correlate_independently() {
    let mut perf = HttpPerfData::new(L7RrtCache::new(100));
    let r1 = packet(&headers_frame(1, 0x82), 1000, PacketDirection::ClientToServer);
    perf.parse(&r1, FLOW_ID).unwrap();
    let r3 = packet(&headers_frame(3, 0x82), 2000, PacketDirection::ClientToServer);
    perf.parse(&r3, FLOW_ID).unwrap();
    // Responses arrive in reverse stream order.
    let a3 = packet(&headers_frame(3, 0x88), 2500, PacketDirection::ServerToClient);
    perf.parse(&a3, FLOW_ID).unwrap();
    {
        let stats = perf.perf_stats.as_ref().unwrap();
        assert_eq!(stats.rrt_last, 500); // 2500 - 2000, stream 3's own request
    }
    let a1 = packet(&headers_frame(1, 0x88), 4000, PacketDirection::ServerToClient);
    perf.parse(&a1, FLOW_ID).unwrap();
    let stats = perf.perf_stats.unwrap();
    assert_eq!(stats.rrt_last, 3000); // 4000 - 1000, stream 1's own request
    assert_eq!(stats.rrt_count, 2);
    assert_eq!(stats.rrt_sum, 3500);
    assert_eq!(stats.rrt_max, 3000);
}

#[test]
fn copy_and_reset_is_idempotent() {
    let mut perf = HttpPerfData::new(L7RrtCache::new(100));
    let req = packet(b"GET / HTTP/1.1\r\n\r\n", 0, PacketDirection::ClientToServer);
    perf.parse(&req, FLOW_ID).unwrap();
    let resp = packet(b"HTTP/1.1 200 OK\r\n\r\n", 5000, PacketDirection::ServerToClient);
    perf.parse(&resp, FLOW_ID).unwrap();

    let first = perf.copy_and_reset_data(2);
    assert_eq!(first.l7_protocol, L7Protocol::Http1);
    assert_eq!(first.l7.request_count, 1);
    assert_eq!(first.l7.response_count, 1);
    assert_eq!(first.l7.rrt_count, 1);
    assert_eq!(first.l7.rrt_sum, 5); // 5000 ns in microseconds
    assert_eq!(first.l7.rrt_max, 5);
    assert_eq!(first.l7.err_timeout, 2);
    assert!(!perf.data_updated());

    // No parse in between: the second snapshot is the empty delta.
    let second = perf.copy_and_reset_data(7);
    assert_eq!(second.l7.request_count, 0);
    assert_eq!(second.l7.response_count, 0);
    assert_eq!(second.l7.rrt_count, 0);
    assert_eq!(second.l7.rrt_sum, 0);
    assert_eq!(second.l7.rrt_max, 0);
    assert_eq!(second.l7.err_client_count, 0);
    assert_eq!(second.l7.err_server_count, 0);
    assert_eq!(second.l7.err_timeout, 7);
}

#[test]
fn error_status_codes_bump_error_counters() {
    let mut perf = HttpPerfData::new(L7RrtCache::new(100));
    let r404 = packet(b"HTTP/1.1 404 Not Found\r\n\r\n", 0, PacketDirection::ServerToClient);
    perf.parse(&r404, FLOW_ID).unwrap();
    assert_eq!(perf.session_data.status, L7ResponseStatus::ClientError);
    let r503 = packet(b"HTTP/1.1 503 Unavailable\r\n\r\n", 0, PacketDirection::ServerToClient);
    perf.parse(&r503, FLOW_ID).unwrap();
    assert_eq!(perf.session_data.status, L7ResponseStatus::ServerError);
    let stats = perf.perf_stats.unwrap();
    assert_eq!(stats.req_err_count, 1);
    assert_eq!(stats.resp_err_count, 1);
    assert_eq!(stats.resp_count, 2);
}

#[test]
fn app_proto_head_hands_out_once() {
    let mut perf = HttpPerfData::new(L7RrtCache::new(100));
    assert!(perf.app_proto_head().is_none());
    let req = packet(b"GET / HTTP/1.1\r\n\r\n", 0, PacketDirection::ClientToServer);
    perf.parse(&req, FLOW_ID).unwrap();
    let resp = packet(b"HTTP/1.1 200 OK\r\n\r\n", 84051000, PacketDirection::ServerToClient);
    perf.parse(&resp, FLOW_ID).unwrap();
    let (head, extra) = perf.app_proto_head().unwrap();
    assert_eq!(extra, 0);
    assert_eq!(head.proto, L7Protocol::Http1);
    assert_eq!(head.msg_type, LogMessageType::Response);
    assert_eq!(head.status, L7ResponseStatus::Normal);
    assert_eq!(head.code, 200);
    assert_eq!(head.rrt, 84051); // microseconds
    assert_eq!(head.version, 0);
    // The head is handed out exactly once per parsed message.
    assert!(perf.app_proto_head().is_none());
}

#[test]
fn non_tcp_and_empty_payloads_are_rejected() {
    let mut perf = HttpPerfData::new(L7RrtCache::new(100));
    let mut udp = packet(b"GET / HTTP/1.1\r\n\r\n", 0, PacketDirection::ClientToServer);
    udp.proto = IpProtocol::Udp;
    assert_eq!(perf.parse(&udp, FLOW_ID), Err(Error::InvalidIpProtocol));

    let mut empty = packet(b"", 0, PacketDirection::ClientToServer);
    empty.l4_payload = None;
    assert_eq!(perf.parse(&empty, FLOW_ID), Err(Error::ZeroPayloadLen));
    assert!(!perf.data_updated());
}

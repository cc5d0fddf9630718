use vstd::prelude::*;

use crate::common::{IpProtocol, L7Protocol, MetaPacket, PacketDirection};
use crate::error::Error;
use crate::http::{
    spec_find_headers_frame, spec_frame_header_at, spec_frame_header_ok, spec_has_magic_at,
    spec_headers_payload_result, spec_is_http_v1_payload, spec_parse_lines,
    spec_status_line_code, has_magic_at, hpack_block_safe, hpack_decode, is_valid_request_line,
    is_valid_status_line,
    parse_lines, check_http_method, get_http_request_version, get_http_resp_info,
    is_http_v1_payload, split_spaces, status_from_header_list, Httpv2Headers, FLAG_HEADERS_PADDED,
    FLAG_HEADERS_PRIORITY, FRAME_HEADERS, H2C_HEADER_SIZE, HTTPV2_MAGIC_LENGTH,
};
use crate::perf_stats::{
    spec_empty_stats, spec_on_request, spec_on_response, spec_status_of_code, status_of_code,
    spec_export_snapshot, FlowPerfStats, L7PerfStats, PerfStats,
};
use crate::protocol_logs::{AppProtoHead, L7ResponseStatus, LogMessageType};
use crate::rrt_cache::{
    cache_after_add, cache_after_remove, cache_has, cache_keys_unique, cache_lookup,
    lemma_correlation_at_most_once, lemma_lookup_after_add, lemma_unique_after_add, L7RrtCache,
    RrtEntry,
};
use vstd::slice::slice_subrange;

verus! {

/// Per-message classification state of the flow's most recent message.
#[derive(Debug)]
pub struct HttpSessionData {
    /// Frame header of the most recent HTTP/2 HEADERS frame.
    pub httpv2_headers: Httpv2Headers,
    pub status: L7ResponseStatus,
    pub status_code: u16,
    pub has_log_data: bool,
    pub l7_proto: L7Protocol,
    pub msg_type: LogMessageType,
}

/// HTTP performance parser of one flow: classifies each packet's payload
/// as HTTP/1 or HTTP/2, correlates requests with responses through the
/// owned correlation cache, and accumulates per-flow statistics.
#[derive(Debug)]
pub struct HttpPerfData {
    pub perf_stats: Option<PerfStats>,
    pub session_data: HttpSessionData,
    /// Correlation cache of this flow; owned for the flow's lifetime.
    pub rrt_cache: L7RrtCache,
}

/// The accumulator to advance: what was already accumulated, or a fresh
/// one on the flow's first counted message.
pub open spec fn stats_or_empty(stats: Option<PerfStats>) -> PerfStats {
    match stats {
        Some(s) => s,
        None => spec_empty_stats(),
    }
}

/// Whether a payload classifies as HTTP/1 in the given direction: it
/// must look like HTTP/1, hold at least one complete line, and open with
/// a well-formed status line (responses) or request line (requests).
pub open spec fn spec_http1_classifies(p: Seq<u8>, direction: PacketDirection) -> bool {
    &&& spec_is_http_v1_payload(p)
    &&& spec_parse_lines(p).len() > 0
    &&& match direction {
        PacketDirection::ServerToClient => is_valid_status_line(spec_parse_lines(p)[0]),
        PacketDirection::ClientToServer => is_valid_request_line(spec_parse_lines(p)[0]),
    }
}

/// The HEADERS frame header and status code a payload classifies as
/// under HTTP/2 framing, or nothing when the frame scan or the header
/// block fails.
pub open spec fn spec_http2_result(p: Seq<u8>) -> Option<(Httpv2Headers, u16)> {
    match spec_find_headers_frame(p, 0) {
        Some((h, off)) => match spec_headers_payload_result(h, p.skip(off)) {
            Some(code) => Some((h, code)),
            None => None,
        },
        None => None,
    }
}

/// The packet's payload bytes, empty when it carried none.
pub open spec fn spec_payload_of(meta: MetaPacket) -> Seq<u8> {
    match meta.l4_payload {
        Some(p) => p@,
        None => Seq::empty(),
    }
}

/// The HEADERS frame header and status code of a payload that does
/// classify under HTTP/2 framing.
pub open spec fn spec_http2_parts(p: Seq<u8>) -> (Httpv2Headers, u16) {
    match spec_http2_result(p) {
        Some(v) => v,
        None => arbitrary(),
    }
}

/// Everything one successfully parsed request changes: the request is
/// counted, its timestamp is cached under `(flow_id, sub_stream)` for
/// later correlation, and the session state records a request message.
pub open spec fn request_side_post(
    pre: HttpPerfData,
    post: HttpPerfData,
    sub_stream: Option<u32>,
    timestamp: u64,
    flow_id: u64,
) -> bool {
    &&& post.perf_stats == Some(spec_on_request(stats_or_empty(pre.perf_stats)))
    &&& post.rrt_cache@ == cache_after_add(
        pre.rrt_cache@,
        pre.rrt_cache.spec_cap(),
        flow_id,
        sub_stream,
        timestamp,
    )
    &&& post.rrt_cache.spec_cap() == pre.rrt_cache.spec_cap()
    &&& post.session_data.msg_type == LogMessageType::Request
    &&& post.session_data.status == pre.session_data.status
    &&& post.session_data.status_code == pre.session_data.status_code
}

/// Everything one successfully parsed response changes: the response is
/// counted and classified by its status code, the cached request
/// timestamp of its key (if any) is consumed, and round-trip statistics
/// advance exactly when that timestamp does not lie after the response.
pub open spec fn response_side_post(
    pre: HttpPerfData,
    post: HttpPerfData,
    sub_stream: Option<u32>,
    code: u16,
    timestamp: u64,
    flow_id: u64,
) -> bool {
    &&& post.perf_stats == Some(
        spec_on_response(
            stats_or_empty(pre.perf_stats),
            code,
            cache_lookup(pre.rrt_cache@, flow_id, sub_stream),
            timestamp,
        ),
    )
    &&& post.rrt_cache@ == cache_after_remove(pre.rrt_cache@, flow_id, sub_stream)
    &&& post.rrt_cache.spec_cap() == pre.rrt_cache.spec_cap()
    &&& post.session_data.msg_type == LogMessageType::Response
    &&& post.session_data.status_code == code
    &&& post.session_data.status == spec_status_of_code(code)
}

impl HttpPerfData {
    pub open spec fn wf(&self) -> bool {
        self.rrt_cache.wf()
    }

    /// A parser for one flow, taking ownership of the flow's correlation
    /// cache.
    pub fn new(rrt_cache: L7RrtCache) -> (r: Self)
        requires
            rrt_cache.wf(),
        ensures
            r.wf(),
            r.perf_stats is None,
            r.session_data.httpv2_headers == (Httpv2Headers {
                frame_length: 0,
                frame_type: 0,
                flags: 0,
                stream_id: 0,
            }),
            r.session_data.status == L7ResponseStatus::Normal,
            r.session_data.status_code == 0,
            r.session_data.has_log_data == false,
            r.session_data.l7_proto == L7Protocol::Unknown,
            r.session_data.msg_type == LogMessageType::Other,
            r.rrt_cache == rrt_cache,
    {
        let session_data = HttpSessionData {
            httpv2_headers: Httpv2Headers::default(),
            status_code: 0,
            status: L7ResponseStatus::default(),
            has_log_data: false,
            l7_proto: L7Protocol::default(),
            msg_type: LogMessageType::default(),
        };
        HttpPerfData { perf_stats: None, session_data, rrt_cache }
    }

    /// Advances the accumulator for one request.
    fn count_request(&mut self, sub_stream: Option<u32>, timestamp: u64, flow_id: u64)
        requires
            old(self).wf(),
        ensures
            final(self).wf(),
            request_side_post(*old(self), *final(self), sub_stream, timestamp, flow_id),
            final(self).session_data.status == old(self).session_data.status,
            final(self).session_data.status_code == old(self).session_data.status_code,
            final(self).session_data.has_log_data == old(self).session_data.has_log_data,
            final(self).session_data.l7_proto == old(self).session_data.l7_proto,
            final(self).session_data.httpv2_headers == old(self).session_data.httpv2_headers,
    {
        self.session_data.msg_type = LogMessageType::Request;
        let base = match &self.perf_stats {
            Some(s) => *s,
            None => PerfStats::default(),
        };
        let mut stats = base;
        stats.req_count = if stats.req_count < 0xffff_ffffu32 {
            stats.req_count + 1
        } else {
            stats.req_count
        };
        stats.rrt_last = 0;
        self.perf_stats = Some(stats);
        self.rrt_cache.add_req_time(flow_id, sub_stream, timestamp);
    }

    /// Advances the accumulator for one response of status `code`,
    /// consuming the cached request timestamp of its key.
    fn count_response(&mut self, sub_stream: Option<u32>, code: u16, timestamp: u64, flow_id: u64)
        requires
            old(self).wf(),
        ensures
            final(self).wf(),
            response_side_post(*old(self), *final(self), sub_stream, code, timestamp, flow_id),
            final(self).session_data.has_log_data == old(self).session_data.has_log_data,
            final(self).session_data.l7_proto == old(self).session_data.l7_proto,
            final(self).session_data.httpv2_headers == old(self).session_data.httpv2_headers,
    {
        self.session_data.msg_type = LogMessageType::Response;
        self.session_data.status_code = code;
        self.session_data.status = status_of_code(code);
        let base = match &self.perf_stats {
            Some(s) => *s,
            None => PerfStats::default(),
        };
        let mut stats = base;
        stats.resp_count = if stats.resp_count < 0xffff_ffffu32 {
            stats.resp_count + 1
        } else {
            stats.resp_count
        };
        match status_of_code(code) {
            L7ResponseStatus::ClientError => {
                stats.req_err_count = if stats.req_err_count < 0xffff_ffffu32 {
                    stats.req_err_count + 1
                } else {
                    stats.req_err_count
                };
            },
            L7ResponseStatus::ServerError => {
                stats.resp_err_count = if stats.resp_err_count < 0xffff_ffffu32 {
                    stats.resp_err_count + 1
                } else {
                    stats.resp_err_count
                };
            },
            _ => {},
        }
        stats.rrt_last = 0;
        let cached = self.rrt_cache.get_and_remove_l7_req_time(flow_id, sub_stream);
        match cached {
            Some(req_ts) => {
                if timestamp >= req_ts {
                    let rtt: u64 = timestamp - req_ts;
                    if rtt > stats.rrt_max {
                        stats.rrt_max = rtt;
                    }
                    stats.rrt_last = rtt;
                    stats.rrt_sum = if stats.rrt_sum
                        <= 0xffff_ffff_ffff_ffff_ffff_ffff_ffff_ffffu128 - (rtt as u128) {
                        stats.rrt_sum + (rtt as u128)
                    } else {
                        0xffff_ffff_ffff_ffff_ffff_ffff_ffff_ffffu128
                    };
                    stats.rrt_count = if stats.rrt_count < 0xffff_ffffu32 {
                        stats.rrt_count + 1
                    } else {
                        stats.rrt_count
                    };
                }
            },
            None => {},
        }
        self.perf_stats = Some(stats);
    }

    /// Attempts to read the payload as one HTTP/1 message: request lines
    /// feed the correlation cache, status lines consume it and advance
    /// the round-trip statistics; a payload that does not match the
    /// HTTP/1 line grammar changes nothing.
    pub fn parse_http_v1(
        &mut self,
        payload: &[u8],
        timestamp: u64,
        direction: PacketDirection,
        flow_id: u64,
    ) -> (r: Result<(), Error>)
        requires
            old(self).wf(),
        ensures
            final(self).wf(),
            r is Ok <==> spec_http1_classifies(payload@, direction),
            r is Err ==> *final(self) == *old(self) && r == Result::<(), Error>::Err(
                Error::HttpHeaderParseFailed,
            ),
            r is Ok && direction is ClientToServer ==> request_side_post(
                *old(self),
                *final(self),
                None,
                timestamp,
                flow_id,
            ),
            r is Ok && direction is ServerToClient ==> response_side_post(
                *old(self),
                *final(self),
                None,
                spec_status_line_code(spec_parse_lines(payload@)[0]),
                timestamp,
                flow_id,
            ),
            r is Ok ==> final(self).session_data.has_log_data == old(self).session_data.has_log_data && final(self).session_data.l7_proto == old(self).session_data.l7_proto && final(self).session_data.httpv2_headers == old(self).session_data.httpv2_headers,
    {
        if !is_http_v1_payload(payload) {
            return Err(Error::HttpHeaderParseFailed);
        }
        let lines = parse_lines(payload);
        if lines.len() == 0 {
            return Err(Error::HttpHeaderParseFailed);
        }
        let line = &lines[0];
        proof {
            assert(lines.deep_view()[0] == line.deep_view());
            assert(line.deep_view() =~= line@);
        }
        if matches!(direction, PacketDirection::ServerToClient) {
            let (_version, status_code) = match get_http_resp_info(line.as_slice()) {
                Ok(v) => v,
                Err(_) => {
                    return Err(Error::HttpHeaderParseFailed);
                },
            };
            self.count_response(None, status_code, timestamp, flow_id);
        } else {
            let tokens = split_spaces(line.as_slice());
            if tokens.len() != 3 {
                return Err(Error::HttpHeaderParseFailed);
            }
            proof {
                assert(tokens.deep_view()[0] == tokens@[0].deep_view());
                assert(tokens@[0].deep_view() =~= tokens@[0]@);
                assert(tokens.deep_view()[2] == tokens@[2].deep_view());
                assert(tokens@[2].deep_view() =~= tokens@[2]@);
            }
            if check_http_method(tokens[0].as_slice()).is_err() {
                return Err(Error::HttpHeaderParseFailed);
            }
            if get_http_request_version(tokens[2].as_slice()).is_err() {
                return Err(Error::HttpHeaderParseFailed);
            }
            self.count_request(None, timestamp, flow_id);
        }
        Ok(())
    }

    /// First-glance preface check, from the start of the payload.
    pub fn has_magic(payload: &[u8]) -> (r: bool)
        ensures
            r == spec_has_magic_at(payload@, 0),
    {
        has_magic_at(payload, 0)
    }

    /// Reads the classification out of a HEADERS frame payload: skips
    /// the optional pad-length byte and priority block, checks that the
    /// declared boundaries fit the buffer, rejects a header block whose
    /// own framing runs past its end, then decompresses the block and
    /// scans it for the deciding pseudo-header.
    pub fn parse_headers_frame_payload(headers: &Httpv2Headers, payload: &[u8]) -> (r: Result<
        u16,
        Error,
    >)
        ensures
            r is Ok <==> spec_headers_payload_result(*headers, payload@) is Some,
            r matches Ok(code) ==> spec_headers_payload_result(*headers, payload@) == Some(code),
            r is Err ==> r == Result::<u16, Error>::Err(Error::HttpHeaderParseFailed),
    {
        let mut l_offset: usize = 0;
        let mut pad: usize = 0;
        if headers.flags & FLAG_HEADERS_PADDED != 0 {
            if payload.len() < 1 {
                return Err(Error::HttpHeaderParseFailed);
            }
            if payload[0] as u32 > headers.frame_length {
                return Err(Error::HttpHeaderParseFailed);
            }
            l_offset = 1;
            pad = payload[0] as usize;
        }
        if headers.flags & FLAG_HEADERS_PRIORITY != 0 {
            l_offset = l_offset + 5;
        }
        if payload.len() <= l_offset {
            return Err(Error::HttpHeaderParseFailed);
        }
        let end: usize = (headers.frame_length as usize) - pad;
        if end > payload.len() || end < l_offset {
            return Err(Error::HttpHeaderParseFailed);
        }
        let fragment = slice_subrange(payload, l_offset, end);
        if !hpack_block_safe(fragment) {
            return Err(Error::HttpHeaderParseFailed);
        }
        let decoded = match hpack_decode(fragment) {
            Some(v) => v,
            None => {
                return Err(Error::HttpHeaderParseFailed);
            },
        };
        status_from_header_list(&decoded)
    }

    /// Scans the payload for its first HEADERS frame and reads the
    /// classification out of it: preface bytes are skipped wherever they
    /// appear, other frames are skipped whole, and a frame that declares
    /// more bytes than the capture holds fails as truncated.
    pub fn parse_frame(payload: &[u8]) -> (r: Result<(Httpv2Headers, u16), Error>)
        ensures
            r is Ok <==> spec_http2_result(payload@) is Some,
            r matches Ok(v) ==> spec_http2_result(payload@) == Some(v),
            r is Err ==> (r == Result::<(Httpv2Headers, u16), Error>::Err(
                Error::HttpHeaderParseFailed,
            ) || r == Result::<(Httpv2Headers, u16), Error>::Err(Error::HttpFrameTruncated)),
    {
        let n = payload.len();
        let mut off: usize = 0;
        while n - off > H2C_HEADER_SIZE
            invariant
                n == payload@.len(),
                0 <= off <= n,
                spec_find_headers_frame(payload@, 0) == spec_find_headers_frame(
                    payload@,
                    off as int,
                ),
            decreases n - off,
        {
            if has_magic_at(payload, off) {
                off = off + HTTPV2_MAGIC_LENGTH;
                continue ;
            }
            let hdr_slice = slice_subrange(payload, off, off + H2C_HEADER_SIZE);
            proof {
                assert forall|k: int| 0 <= k < H2C_HEADER_SIZE implies #[trigger] hdr_slice@[k]
                    == payload@[off + k] by {}
            }
            let mut h = Httpv2Headers::default();
            let header_ok = h.parse_headers_frame(hdr_slice);
            if header_ok.is_err() {
                proof {
                    assert(!spec_frame_header_ok(payload@, off as int));
                }
                return Err(Error::HttpHeaderParseFailed);
            }
            proof {
                assert(spec_frame_header_ok(payload@, off as int));
                assert(h == spec_frame_header_at(payload@, off as int));
            }
            if h.frame_type == FRAME_HEADERS {
                if h.stream_id == 0 {
                    return Err(Error::HttpHeaderParseFailed);
                }
                let rest = slice_subrange(payload, off + H2C_HEADER_SIZE, n);
                proof {
                    assert(rest@ =~= payload@.skip(off + H2C_HEADER_SIZE));
                }
                let code = match Self::parse_headers_frame_payload(&h, rest) {
                    Ok(c) => c,
                    Err(e) => {
                        return Err(e);
                    },
                };
                return Ok((h, code));
            }
            let flen = h.frame_length as usize;
            if n - off - H2C_HEADER_SIZE <= flen {
                return Err(Error::HttpFrameTruncated);
            }
            off = off + H2C_HEADER_SIZE + flen;
        }
        Err(Error::HttpHeaderParseFailed)
    }

    /// Attempts to read the payload as HTTP/2 framing: the first HEADERS
    /// frame decides between request and response, and its stream id
    /// keys the correlation cache so concurrent exchanges on one flow
    /// correlate independently.
    pub fn parse_http_v2(
        &mut self,
        payload: &[u8],
        timestamp: u64,
        direction: PacketDirection,
        flow_id: u64,
    ) -> (r: Result<(), Error>)
        requires
            old(self).wf(),
        ensures
            final(self).wf(),
            r is Ok <==> spec_http2_result(payload@) is Some,
            r is Err ==> *final(self) == *old(self),
            r is Ok ==> final(self).session_data.httpv2_headers == spec_http2_parts(payload@).0
                && (match direction {
                PacketDirection::ClientToServer => request_side_post(
                    *old(self),
                    *final(self),
                    Some(spec_http2_parts(payload@).0.stream_id),
                    timestamp,
                    flow_id,
                ),
                PacketDirection::ServerToClient => response_side_post(
                    *old(self),
                    *final(self),
                    Some(spec_http2_parts(payload@).0.stream_id),
                    spec_http2_parts(payload@).1,
                    timestamp,
                    flow_id,
                ),
            }),
            r is Ok ==> final(self).session_data.has_log_data == old(self).session_data.has_log_data && final(self).session_data.l7_proto == old(self).session_data.l7_proto,
    {
        let (h, status_code) = match Self::parse_frame(payload) {
            Ok(v) => v,
            Err(_) => {
                return Err(Error::HttpHeaderParseFailed);
            },
        };
        self.session_data.httpv2_headers = h;
        if matches!(direction, PacketDirection::ServerToClient) {
            self.count_response(Some(h.stream_id), status_code, timestamp, flow_id);
        } else {
            self.count_request(Some(h.stream_id), timestamp, flow_id);
        }
        Ok(())
    }

    /// Classifies one packet's payload, trying HTTP/1 before HTTP/2.
    ///
    /// Only TCP packets carrying a payload are considered; a payload
    /// matching neither grammar leaves the parser unchanged so the
    /// dispatcher can try the next protocol candidate.
    pub fn parse(&mut self, meta: &MetaPacket, flow_id: u64) -> (r: Result<(), Error>)
        requires
            old(self).wf(),
        ensures
            final(self).wf(),
            r is Ok <==> meta.proto is Tcp && meta.l4_payload is Some && (spec_http1_classifies(
                spec_payload_of(*meta),
                meta.direction,
            ) || spec_http2_result(spec_payload_of(*meta)) is Some),
            r is Err ==> *final(self) == *old(self),
            r == Result::<(), Error>::Err(Error::InvalidIpProtocol) <==> !(meta.proto is Tcp),
            r == Result::<(), Error>::Err(Error::ZeroPayloadLen) <==> meta.proto is Tcp
                && meta.l4_payload is None,
            r == Result::<(), Error>::Err(Error::HttpHeaderParseFailed) <==> meta.proto is Tcp
                && meta.l4_payload is Some && !spec_http1_classifies(
                spec_payload_of(*meta),
                meta.direction,
            ) && spec_http2_result(spec_payload_of(*meta)) is None,
            r is Ok ==> final(self).session_data.has_log_data,
            r is Ok && spec_http1_classifies(spec_payload_of(*meta), meta.direction) ==> final(self).session_data.l7_proto == L7Protocol::Http1 && final(self).session_data.httpv2_headers == old(self).session_data.httpv2_headers && (
            match meta.direction {
                PacketDirection::ClientToServer => request_side_post(
                    *old(self),
                    *final(self),
                    None,
                    meta.timestamp,
                    flow_id,
                ),
                PacketDirection::ServerToClient => response_side_post(
                    *old(self),
                    *final(self),
                    None,
                    spec_status_line_code(spec_parse_lines(spec_payload_of(*meta))[0]),
                    meta.timestamp,
                    flow_id,
                ),
            }),
            r is Ok && !spec_http1_classifies(spec_payload_of(*meta), meta.direction) ==> final(self).session_data.l7_proto == L7Protocol::Http2 && final(self).session_data.httpv2_headers == spec_http2_parts(spec_payload_of(*meta)).0 && (
            match meta.direction {
                PacketDirection::ClientToServer => request_side_post(
                    *old(self),
                    *final(self),
                    Some(spec_http2_parts(spec_payload_of(*meta)).0.stream_id),
                    meta.timestamp,
                    flow_id,
                ),
                PacketDirection::ServerToClient => response_side_post(
                    *old(self),
                    *final(self),
                    Some(spec_http2_parts(spec_payload_of(*meta)).0.stream_id),
                    spec_http2_parts(spec_payload_of(*meta)).1,
                    meta.timestamp,
                    flow_id,
                ),
            }),
    {
        if !matches!(meta.proto, IpProtocol::Tcp) {
            return Err(Error::InvalidIpProtocol);
        }
        let payload = match meta.get_l4_payload() {
            Some(p) => p,
            None => {
                return Err(Error::ZeroPayloadLen);
            },
        };
        if self.parse_http_v1(
            payload.as_slice(),
            meta.timestamp,
            meta.direction,
            flow_id,
        ).is_ok() {
            self.session_data.has_log_data = true;
            self.session_data.l7_proto = L7Protocol::Http1;
            return Ok(());
        }
        if self.parse_http_v2(
            payload.as_slice(),
            meta.timestamp,
            meta.direction,
            flow_id,
        ).is_ok() {
            self.session_data.has_log_data = true;
            self.session_data.l7_proto = L7Protocol::Http2;
            return Ok(());
        }
        Err(Error::HttpHeaderParseFailed)
    }

    /// Whether statistics changed since the last export cycle.
    pub fn data_updated(&self) -> (r: bool)
        ensures
            r == (self.perf_stats is Some),
    {
        self.perf_stats.is_some()
    }

    /// Takes the accumulated statistics, leaving the accumulator empty,
    /// and folds in the externally computed count of correlation-cache
    /// entries that timed out.  Safe to call when nothing was
    /// accumulated: the snapshot then carries only the timeout count.
    pub fn copy_and_reset_data(&mut self, timeout_count: u32) -> (r: FlowPerfStats)
        ensures
            final(self).perf_stats is None,
            final(self).session_data == old(self).session_data,
            final(self).rrt_cache == old(self).rrt_cache,
            r == spec_export_snapshot(
                old(self).perf_stats,
                old(self).session_data.l7_proto,
                timeout_count,
            ),
    {
        match self.perf_stats.take() {
            Some(stats) => FlowPerfStats {
                l7_protocol: self.session_data.l7_proto,
                l7: L7PerfStats {
                    request_count: stats.req_count,
                    response_count: stats.resp_count,
                    rrt_count: stats.rrt_count,
                    rrt_sum: crate::perf_stats::micros64(stats.rrt_sum),
                    rrt_max: crate::perf_stats::micros32(stats.rrt_max),
                    err_client_count: stats.req_err_count,
                    err_server_count: stats.resp_err_count,
                    err_timeout: timeout_count,
                },
            },
            None => FlowPerfStats {
                l7_protocol: self.session_data.l7_proto,
                l7: L7PerfStats {
                    request_count: 0,
                    response_count: 0,
                    rrt_count: 0,
                    rrt_sum: 0,
                    rrt_max: 0,
                    err_client_count: 0,
                    err_server_count: 0,
                    err_timeout: timeout_count,
                },
            },
        }
    }

    /// Hands out the most recent message's classification head exactly
    /// once per parsed message: the "new data" flag is cleared, and the
    /// next call returns nothing until another message parses.  The
    /// head's round-trip time is the last exchange's, in microseconds.
    pub fn app_proto_head(&mut self) -> (r: Option<(AppProtoHead, u16)>)
        ensures
            r is Some <==> (old(self).session_data.l7_proto == L7Protocol::Http1 || old(self).session_data.l7_proto == L7Protocol::Http2) && old(self).session_data.has_log_data,
            r is None ==> *final(self) == *old(self),
            r matches Some((head, extra)) ==> {
                &&& extra == 0u16
                &&& head.proto == old(self).session_data.l7_proto
                &&& head.msg_type == old(self).session_data.msg_type
                &&& head.status == old(self).session_data.status
                &&& head.code == old(self).session_data.status_code
                &&& head.rrt == (match old(self).perf_stats {
                    Some(s) => s.rrt_last / 1000,
                    None => 0u64,
                })
                &&& head.version == 0u8
                &&& final(self).session_data.has_log_data == false
                &&& final(self).session_data.msg_type == old(self).session_data.msg_type
                &&& final(self).session_data.status == old(self).session_data.status
                &&& final(self).session_data.status_code == old(self).session_data.status_code
                &&& final(self).session_data.l7_proto == old(self).session_data.l7_proto
                &&& final(self).session_data.httpv2_headers == old(self).session_data.httpv2_headers
                &&& final(self).perf_stats == old(self).perf_stats
                &&& final(self).rrt_cache == old(self).rrt_cache
            },
    {
        let proto_matches = matches!(self.session_data.l7_proto, L7Protocol::Http1)
            || matches!(self.session_data.l7_proto, L7Protocol::Http2);
        if !proto_matches || !self.session_data.has_log_data {
            return None;
        }
        self.session_data.has_log_data = false;
        let rrt = match &self.perf_stats {
            Some(s) => s.rrt_last / 1000,
            None => 0,
        };
        Some(
            (
                AppProtoHead {
                    proto: self.session_data.l7_proto,
                    msg_type: self.session_data.msg_type,
                    status: self.session_data.status,
                    code: self.session_data.status_code,
                    rrt,
                    version: 0,
                },
                0,
            ),
        )
    }
}

/// One well-formed request/response pair on one flow and key, with the
/// response not before the request: recording the request caches exactly
/// its timestamp; the response's lookup finds exactly that timestamp;
/// the round-trip aggregates then advance exactly once, by exactly the
/// elapsed time; and afterwards the key correlates with nothing more.
pub proof fn lemma_request_response_pair(
    stats: PerfStats,
    cache: Seq<RrtEntry>,
    cap: int,
    flow_id: u64,
    sub_stream: Option<u32>,
    code: u16,
    request_ts: u64,
    response_ts: u64,
)
    requires
        cache_keys_unique(cache),
        cap >= 1,
        request_ts <= response_ts,
        stats.rrt_count < 0xffff_ffffu32,
        stats.rrt_sum + (response_ts - request_ts)
            <= 0xffff_ffff_ffff_ffff_ffff_ffff_ffff_ffffu128,
    ensures
        ({
            let after_request = spec_on_request(stats);
            let cache1 = cache_after_add(cache, cap, flow_id, sub_stream, request_ts);
            let found = cache_lookup(cache1, flow_id, sub_stream);
            let after_response = spec_on_response(after_request, code, found, response_ts);
            &&& found == Some(request_ts)
            &&& after_response.rrt_last == response_ts - request_ts
            &&& after_response.rrt_count == stats.rrt_count + 1
            &&& after_response.rrt_sum == stats.rrt_sum + (response_ts - request_ts)
            &&& after_response.rrt_max >= response_ts - request_ts
            &&& !cache_has(
                cache_after_remove(cache1, flow_id, sub_stream),
                flow_id,
                sub_stream,
            )
        }),
{
    lemma_lookup_after_add(cache, cap, flow_id, sub_stream, request_ts);
    lemma_unique_after_add(cache, cap, flow_id, sub_stream, request_ts);
    lemma_correlation_at_most_once(
        cache_after_add(cache, cap, flow_id, sub_stream, request_ts),
        flow_id,
        sub_stream,
    );
}

/// Exporting statistics is a copy-and-clear: once a snapshot has been
/// taken the accumulator is empty, and a second export with no parsing
/// in between yields the empty-delta snapshot, carrying only the timeout
/// count handed to that call.
pub proof fn lemma_export_idempotent(l7_proto: L7Protocol, timeout_count: u32)
    ensures
        spec_export_snapshot(None, l7_proto, timeout_count) == (FlowPerfStats {
            l7_protocol: l7_proto,
            l7: L7PerfStats {
                request_count: 0,
                response_count: 0,
                rrt_count: 0,
                rrt_sum: 0,
                rrt_max: 0,
                err_client_count: 0,
                err_server_count: 0,
                err_timeout: timeout_count,
            },
        }),
{
}

impl PartialEq for HttpPerfData {
    /// Parsers compare by their observable outcome: statistics, detected
    /// protocol, message role, status and pending-data flag.
    fn eq(&self, other: &HttpPerfData) -> (r: bool) {
        self.perf_stats == other.perf_stats && self.session_data.l7_proto
            == other.session_data.l7_proto && self.session_data.msg_type
            == other.session_data.msg_type && self.session_data.status
            == other.session_data.status && self.session_data.has_log_data
            == other.session_data.has_log_data
    }
}

impl vstd::std_specs::cmp::PartialEqSpecImpl for HttpPerfData {
    open spec fn obeys_eq_spec() -> bool {
        true
    }

    open spec fn eq_spec(&self, other: &HttpPerfData) -> bool {
        &&& self.perf_stats == other.perf_stats
        &&& self.session_data.l7_proto == other.session_data.l7_proto
        &&& self.session_data.msg_type == other.session_data.msg_type
        &&& self.session_data.status == other.session_data.status
        &&& self.session_data.has_log_data == other.session_data.has_log_data
    }
}

impl Eq for HttpPerfData {

}

} // verus!

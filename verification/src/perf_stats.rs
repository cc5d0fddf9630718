use vstd::prelude::*;

use crate::common::L7Protocol;
use crate::protocol_logs::L7ResponseStatus;

verus! {

/// Smallest HTTP status code counted as a client error.
pub const HTTP_STATUS_CLIENT_ERROR_MIN: u16 = 400;

/// Largest HTTP status code counted as a client error.
pub const HTTP_STATUS_CLIENT_ERROR_MAX: u16 = 499;

/// Smallest HTTP status code counted as a server error.
pub const HTTP_STATUS_SERVER_ERROR_MIN: u16 = 500;

/// Largest HTTP status code counted as a server error.
pub const HTTP_STATUS_SERVER_ERROR_MAX: u16 = 599;

/// Status classification of a numeric response code: the two error ranges
/// map to client and server error, everything else is well.
pub open spec fn spec_status_of_code(code: u16) -> L7ResponseStatus {
    if HTTP_STATUS_CLIENT_ERROR_MIN <= code <= HTTP_STATUS_CLIENT_ERROR_MAX {
        L7ResponseStatus::ClientError
    } else if HTTP_STATUS_SERVER_ERROR_MIN <= code <= HTTP_STATUS_SERVER_ERROR_MAX {
        L7ResponseStatus::ServerError
    } else {
        L7ResponseStatus::Normal
    }
}

pub fn status_of_code(code: u16) -> (r: L7ResponseStatus)
    ensures
        r == spec_status_of_code(code),
{
    if HTTP_STATUS_CLIENT_ERROR_MIN <= code && code <= HTTP_STATUS_CLIENT_ERROR_MAX {
        L7ResponseStatus::ClientError
    } else if HTTP_STATUS_SERVER_ERROR_MIN <= code && code <= HTTP_STATUS_SERVER_ERROR_MAX {
        L7ResponseStatus::ServerError
    } else {
        L7ResponseStatus::Normal
    }
}

/// Per-flow accumulator of request/response counts and round-trip times.
///
/// Counts saturate at their type's maximum instead of wrapping, so the
/// accumulator can never panic on overflow; `rrt_max`, `rrt_last` and
/// `rrt_sum` hold nanoseconds.
#[derive(Clone, Copy, Debug, PartialEq, Eq, Structural)]
pub struct PerfStats {
    pub req_count: u32,
    pub resp_count: u32,
    pub req_err_count: u32,
    pub resp_err_count: u32,
    pub rrt_count: u32,
    pub rrt_max: u64,
    pub rrt_last: u64,
    pub rrt_sum: u128,
}

/// The accumulator before any message was counted.
pub open spec fn spec_empty_stats() -> PerfStats {
    PerfStats {
        req_count: 0,
        resp_count: 0,
        req_err_count: 0,
        resp_err_count: 0,
        rrt_count: 0,
        rrt_max: 0,
        rrt_last: 0,
        rrt_sum: 0,
    }
}

impl Default for PerfStats {
    fn default() -> (r: Self)
        ensures
            r == spec_empty_stats(),
    {
        PerfStats {
            req_count: 0,
            resp_count: 0,
            req_err_count: 0,
            resp_err_count: 0,
            rrt_count: 0,
            rrt_max: 0,
            rrt_last: 0,
            rrt_sum: 0,
        }
    }
}

/// A count one higher, held at the maximum instead of wrapping.
pub open spec fn sat_inc32(c: u32) -> u32 {
    if c < 0xffff_ffffu32 {
        (c + 1) as u32
    } else {
        c
    }
}

/// A sum of nanoseconds, held at the maximum instead of wrapping.
pub open spec fn sat_add128(a: u128, b: u64) -> u128 {
    if a + b <= 0xffff_ffff_ffff_ffff_ffff_ffff_ffff_ffffu128 {
        (a + b) as u128
    } else {
        0xffff_ffff_ffff_ffff_ffff_ffff_ffff_ffffu128
    }
}

fn inc32(c: u32) -> (r: u32)
    ensures
        r == sat_inc32(c),
{
    if c < 0xffff_ffffu32 {
        c + 1
    } else {
        c
    }
}

fn add128(a: u128, b: u64) -> (r: u128)
    ensures
        r == sat_add128(a, b),
{
    let wide: u128 = b as u128;
    if a <= 0xffff_ffff_ffff_ffff_ffff_ffff_ffff_ffffu128 - wide {
        a + wide
    } else {
        0xffff_ffff_ffff_ffff_ffff_ffff_ffff_ffffu128
    }
}

/// The accumulator after one parsed request: the request is counted and
/// the last round-trip time is cleared until a response correlates.
pub open spec fn spec_on_request(s: PerfStats) -> PerfStats {
    PerfStats { req_count: sat_inc32(s.req_count), rrt_last: 0, ..s }
}

/// The accumulator after one parsed response was counted, before any
/// round-trip time is considered: the response is counted, an error code
/// bumps the matching error counter, and the last round-trip time is
/// cleared.
pub open spec fn spec_on_response_counted(s: PerfStats, code: u16) -> PerfStats {
    PerfStats {
        resp_count: sat_inc32(s.resp_count),
        req_err_count: if spec_status_of_code(code) is ClientError {
            sat_inc32(s.req_err_count)
        } else {
            s.req_err_count
        },
        resp_err_count: if spec_status_of_code(code) is ServerError {
            sat_inc32(s.resp_err_count)
        } else {
            s.resp_err_count
        },
        rrt_last: 0,
        ..s
    }
}

/// The accumulator after a response correlated with its request `rtt`
/// nanoseconds after it: the sample is counted once into count, sum, max
/// and last.
pub open spec fn spec_on_response_rtt(s: PerfStats, rtt: u64) -> PerfStats {
    PerfStats {
        rrt_count: sat_inc32(s.rrt_count),
        rrt_sum: sat_add128(s.rrt_sum, rtt),
        rrt_max: if rtt > s.rrt_max {
            rtt
        } else {
            s.rrt_max
        },
        rrt_last: rtt,
        ..s
    }
}

/// The whole effect of one parsed response on the accumulator: the
/// response is always counted; the round-trip fields advance only when a
/// request timestamp was cached for the key and does not lie after the
/// response (out-of-order arrivals are counted but excluded from
/// round-trip aggregation).
pub open spec fn spec_on_response(
    s: PerfStats,
    code: u16,
    cached: Option<u64>,
    timestamp: u64,
) -> PerfStats {
    let counted = spec_on_response_counted(s, code);
    match cached {
        Some(req_ts) => if timestamp >= req_ts {
            spec_on_response_rtt(counted, (timestamp - req_ts) as u64)
        } else {
            counted
        },
        None => counted,
    }
}

/// Counters of one export cycle, converted for the collector: counts plus
/// round-trip aggregates in microseconds.
#[derive(Clone, Copy, Debug, PartialEq, Eq, Structural)]
pub struct L7PerfStats {
    pub request_count: u32,
    pub response_count: u32,
    pub rrt_count: u32,
    pub rrt_sum: u64,
    pub rrt_max: u32,
    pub err_client_count: u32,
    pub err_server_count: u32,
    pub err_timeout: u32,
}

/// One exported snapshot: the protocol the flow was classified as, and
/// the application-layer counters of the cycle.
#[derive(Clone, Copy, Debug, PartialEq, Eq, Structural)]
pub struct FlowPerfStats {
    pub l7_protocol: L7Protocol,
    pub l7: L7PerfStats,
}

/// Nanoseconds converted to microseconds, truncated to 64 bits as the
/// export format holds them.
pub open spec fn spec_micros64(nanos: u128) -> u64 {
    ((nanos / 1000) % 0x1_0000_0000_0000_0000) as u64
}

/// Nanoseconds converted to microseconds, truncated to 32 bits as the
/// export format holds them.
pub open spec fn spec_micros32(nanos: u64) -> u32 {
    ((nanos / 1000) % 0x1_0000_0000) as u32
}

pub fn micros64(nanos: u128) -> (r: u64)
    ensures
        r == spec_micros64(nanos),
{
    let m: u128 = (nanos / 1000) % 0x1_0000_0000_0000_0000;
    m as u64
}

pub fn micros32(nanos: u64) -> (r: u32)
    ensures
        r == spec_micros32(nanos),
{
    let m: u64 = (nanos / 1000) % 0x1_0000_0000;
    m as u32
}

/// The snapshot exported for an accumulator state: accumulated counters
/// with the externally computed timeout count folded in, or a snapshot
/// carrying only the timeout count when nothing was accumulated.
pub open spec fn spec_export_snapshot(
    stats: Option<PerfStats>,
    l7_proto: L7Protocol,
    timeout_count: u32,
) -> FlowPerfStats {
    match stats {
        Some(s) => FlowPerfStats {
            l7_protocol: l7_proto,
            l7: L7PerfStats {
                request_count: s.req_count,
                response_count: s.resp_count,
                rrt_count: s.rrt_count,
                rrt_sum: spec_micros64(s.rrt_sum),
                rrt_max: spec_micros32(s.rrt_max),
                err_client_count: s.req_err_count,
                err_server_count: s.resp_err_count,
                err_timeout: timeout_count,
            },
        },
        None => FlowPerfStats {
            l7_protocol: l7_proto,
            l7: L7PerfStats {
                request_count: 0,
                response_count: 0,
                rrt_count: 0,
                rrt_sum: 0,
                rrt_max: 0,
                err_client_count: 0,
                err_server_count: 0,
                err_timeout: timeout_count,
            },
        },
    }
}

/// Counting a response without a cached request leaves every round-trip
/// aggregate untouched: only the response and error counters move.
pub proof fn lemma_uncorrelated_response_keeps_rtt(s: PerfStats, code: u16, timestamp: u64)
    ensures
        spec_on_response(s, code, None, timestamp) == (PerfStats {
            resp_count: sat_inc32(s.resp_count),
            req_err_count: spec_on_response_counted(s, code).req_err_count,
            resp_err_count: spec_on_response_counted(s, code).resp_err_count,
            rrt_last: 0,
            ..s
        }),
        spec_on_response(s, code, None, timestamp).rrt_count == s.rrt_count,
        spec_on_response(s, code, None, timestamp).rrt_sum == s.rrt_sum,
        spec_on_response(s, code, None, timestamp).rrt_max == s.rrt_max,
{
}

/// A response whose request timestamp was cached and does not lie after
/// it advances every round-trip aggregate exactly once, by exactly the
/// elapsed time.
pub proof fn lemma_correlated_response_counts_once(
    s: PerfStats,
    code: u16,
    req_ts: u64,
    resp_ts: u64,
)
    requires
        req_ts <= resp_ts,
        s.rrt_count < 0xffff_ffffu32,
        s.rrt_sum + (resp_ts - req_ts) <= 0xffff_ffff_ffff_ffff_ffff_ffff_ffff_ffffu128,
    ensures
        spec_on_response(s, code, Some(req_ts), resp_ts).rrt_count == s.rrt_count + 1,
        spec_on_response(s, code, Some(req_ts), resp_ts).rrt_sum == s.rrt_sum + (resp_ts - req_ts),
        spec_on_response(s, code, Some(req_ts), resp_ts).rrt_last == resp_ts - req_ts,
        spec_on_response(s, code, Some(req_ts), resp_ts).rrt_max >= resp_ts - req_ts,
        spec_on_response(s, code, Some(req_ts), resp_ts).rrt_max == if resp_ts - req_ts
            > s.rrt_max {
            resp_ts - req_ts
        } else {
            s.rrt_max as int
        },
{
}

} // verus!

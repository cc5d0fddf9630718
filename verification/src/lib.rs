//! Application-layer performance and session-correlation core of a network
//! traffic observability agent.
//!
//! Given packets already grouped into flows, the library classifies the
//! application protocol (HTTP/1 line grammar and HTTP/2 framing in full),
//! correlates requests with their responses through a bounded cache keyed by
//! flow and sub-stream, accumulates round-trip-time statistics, wraps each
//! parsed message into a session envelope, merges matching request/response
//! envelopes into one session record, and serializes finished records for
//! the external sender.

pub mod common;
pub mod error;
pub mod http;
pub mod perf;
pub mod perf_stats;
pub mod protocol_logs;
pub mod rrt_cache;
pub mod sender;
pub mod wire;

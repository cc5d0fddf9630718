use vstd::prelude::*;

verus! {

/// Recoverable conditions raised while classifying a packet's payload.
///
/// A parse failure only means "this payload does not belong to the protocol
/// being tried": the dispatcher moves on to the next candidate protocol and
/// the packet at worst stays unclassified.  No variant is fatal.
#[derive(Clone, Copy, Debug, PartialEq, Eq, Structural)]
pub enum Error {
    /// The packet's transport protocol cannot carry the protocol being
    /// parsed (HTTP parsing only applies to TCP).
    InvalidIpProtocol,
    /// The packet carries no L4 payload at all.
    ZeroPayloadLen,
    /// The payload does not match the protocol grammar (malformed or
    /// foreign start line, bad frame header, bad pseudo-headers).
    HttpHeaderParseFailed,
    /// A frame declares more payload bytes than the capture holds.
    HttpFrameTruncated,
}

} // verus!

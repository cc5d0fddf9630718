use vstd::prelude::*;

use crate::error::Error;

verus! {

// Byte values of the ASCII characters the HTTP/1 line grammar is built
// from.
/// `\r`
pub const BYTE_CR: u8 = 13;

/// `\n`
pub const BYTE_LF: u8 = 10;

/// ` `
pub const BYTE_SPACE: u8 = 32;

// ---------------------------------------------------------------------------
// Splitting a payload into CRLF-terminated lines
// ---------------------------------------------------------------------------
/// One step per payload byte, carrying the line being accumulated and the
/// lines finished so far: a `\n` preceded by `\r` finishes the current
/// line (never within the first three bytes, so truncated captures do not
/// produce a bogus empty first line), `\r` bytes are dropped, and every
/// other byte extends the current line.  Bytes after the last terminator
/// are discarded with the unfinished line.
pub open spec fn spec_parse_lines_from(
    p: Seq<u8>,
    i: int,
    cur: Seq<u8>,
    acc: Seq<Seq<u8>>,
) -> Seq<Seq<u8>>
    decreases p.len() - i,
{
    if i < 0 || i >= p.len() {
        acc
    } else if i > 2 && p[i] == BYTE_LF && p[i - 1] == BYTE_CR {
        spec_parse_lines_from(p, i + 1, Seq::empty(), acc.push(cur))
    } else if p[i] != BYTE_CR {
        spec_parse_lines_from(p, i + 1, cur.push(p[i]), acc)
    } else {
        spec_parse_lines_from(p, i + 1, cur, acc)
    }
}

/// The CRLF-terminated lines of a payload, without their terminators.
pub open spec fn spec_parse_lines(p: Seq<u8>) -> Seq<Seq<u8>> {
    spec_parse_lines_from(p, 0, Seq::empty(), Seq::empty())
}

/// Splits a payload into CRLF-terminated lines.
pub fn parse_lines(payload: &[u8]) -> (r: Vec<Vec<u8>>)
    ensures
        r.deep_view() == spec_parse_lines(payload@),
{
    let n = payload.len();
    let mut lines: Vec<Vec<u8>> = Vec::new();
    let mut line: Vec<u8> = Vec::new();
    let mut i: usize = 0;
    proof {
        assert(lines.deep_view() =~= Seq::<Seq<u8>>::empty());
        assert(line@ =~= Seq::<u8>::empty());
    }
    while i < n
        invariant
            n == payload@.len(),
            0 <= i <= n,
            spec_parse_lines(payload@) == spec_parse_lines_from(
                payload@,
                i as int,
                line@,
                lines.deep_view(),
            ),
        decreases n - i,
    {
        let ch = payload[i];
        if i > 2 && ch == BYTE_LF && payload[i - 1] == BYTE_CR {
            let ghost prev = lines.deep_view();
            lines.push(line);
            line = Vec::new();
            proof {
                assert(lines.deep_view() =~~= prev.push(lines@[prev.len() as int]@));
                assert(line@ =~= Seq::<u8>::empty());
            }
        } else if ch != BYTE_CR {
            line.push(ch);
        }
        i = i + 1;
    }
    lines
}

// ---------------------------------------------------------------------------
// Splitting a line into space-separated tokens
// ---------------------------------------------------------------------------
/// One step per line byte: a space finishes the current token (consecutive
/// spaces produce empty tokens, which makes them detectable), every other
/// byte extends it; the trailing token is always produced.
pub open spec fn spec_split_spaces_from(
    l: Seq<u8>,
    i: int,
    cur: Seq<u8>,
    acc: Seq<Seq<u8>>,
) -> Seq<Seq<u8>>
    decreases l.len() - i,
{
    if i < 0 || i >= l.len() {
        acc.push(cur)
    } else if l[i] == BYTE_SPACE {
        spec_split_spaces_from(l, i + 1, Seq::empty(), acc.push(cur))
    } else {
        spec_split_spaces_from(l, i + 1, cur.push(l[i]), acc)
    }
}

/// The space-separated tokens of a line.
pub open spec fn spec_split_spaces(l: Seq<u8>) -> Seq<Seq<u8>> {
    spec_split_spaces_from(l, 0, Seq::empty(), Seq::empty())
}

/// Splits a line into space-separated tokens.
pub fn split_spaces(line: &[u8]) -> (r: Vec<Vec<u8>>)
    ensures
        r.deep_view() == spec_split_spaces(line@),
{
    let n = line.len();
    let mut tokens: Vec<Vec<u8>> = Vec::new();
    let mut cur: Vec<u8> = Vec::new();
    let mut i: usize = 0;
    proof {
        assert(tokens.deep_view() =~= Seq::<Seq<u8>>::empty());
        assert(cur@ =~= Seq::<u8>::empty());
    }
    while i < n
        invariant
            n == line@.len(),
            0 <= i <= n,
            spec_split_spaces(line@) == spec_split_spaces_from(
                line@,
                i as int,
                cur@,
                tokens.deep_view(),
            ),
        decreases n - i,
    {
        let ch = line[i];
        if ch == BYTE_SPACE {
            let ghost prev = tokens.deep_view();
            tokens.push(cur);
            cur = Vec::new();
            proof {
                assert(tokens.deep_view() =~~= prev.push(tokens@[prev.len() as int]@));
                assert(cur@ =~= Seq::<u8>::empty());
            }
        } else {
            cur.push(ch);
        }
        i = i + 1;
    }
    let ghost prev = tokens.deep_view();
    tokens.push(cur);
    proof {
        assert(tokens.deep_view() =~~= prev.push(tokens@[prev.len() as int]@));
    }
    tokens
}

// ---------------------------------------------------------------------------
// HTTP/1 request methods and versions
// ---------------------------------------------------------------------------
/// `GET`
pub open spec fn is_token_get(t: Seq<u8>) -> bool {
    t.len() == 3 && t[0] == 71 && t[1] == 69 && t[2] == 84
}

/// `PUT`
pub open spec fn is_token_put(t: Seq<u8>) -> bool {
    t.len() == 3 && t[0] == 80 && t[1] == 85 && t[2] == 84
}

/// `HEAD`
pub open spec fn is_token_head(t: Seq<u8>) -> bool {
    t.len() == 4 && t[0] == 72 && t[1] == 69 && t[2] == 65 && t[3] == 68
}

/// `POST`
pub open spec fn is_token_post(t: Seq<u8>) -> bool {
    t.len() == 4 && t[0] == 80 && t[1] == 79 && t[2] == 83 && t[3] == 84
}

/// `TRACE`
pub open spec fn is_token_trace(t: Seq<u8>) -> bool {
    t.len() == 5 && t[0] == 84 && t[1] == 82 && t[2] == 65 && t[3] == 67 && t[4] == 69
}

/// `PATCH`
pub open spec fn is_token_patch(t: Seq<u8>) -> bool {
    t.len() == 5 && t[0] == 80 && t[1] == 65 && t[2] == 84 && t[3] == 67 && t[4] == 72
}

/// `DELETE`
pub open spec fn is_token_delete(t: Seq<u8>) -> bool {
    t.len() == 6 && t[0] == 68 && t[1] == 69 && t[2] == 76 && t[3] == 69 && t[4] == 84 && t[5]
        == 69
}

/// `OPTIONS`
pub open spec fn is_token_options(t: Seq<u8>) -> bool {
    t.len() == 7 && t[0] == 79 && t[1] == 80 && t[2] == 84 && t[3] == 73 && t[4] == 79 && t[5]
        == 78 && t[6] == 83
}

/// `CONNECT`
pub open spec fn is_token_connect(t: Seq<u8>) -> bool {
    t.len() == 7 && t[0] == 67 && t[1] == 79 && t[2] == 78 && t[3] == 78 && t[4] == 69 && t[5]
        == 67 && t[6] == 84
}

/// Whether the token is a recognized HTTP request method.
pub open spec fn is_http_method(t: Seq<u8>) -> bool {
    ||| is_token_get(t)
    ||| is_token_put(t)
    ||| is_token_head(t)
    ||| is_token_post(t)
    ||| is_token_trace(t)
    ||| is_token_patch(t)
    ||| is_token_delete(t)
    ||| is_token_options(t)
    ||| is_token_connect(t)
}

/// Accepts exactly the recognized HTTP request methods.
pub fn check_http_method(t: &[u8]) -> (r: Result<(), Error>)
    ensures
        r is Ok <==> is_http_method(t@),
        r is Err ==> r == Result::<(), Error>::Err(Error::HttpHeaderParseFailed),
{
    let n = t.len();
    let ok: bool = if n == 3 {
        (t[0] == 71 && t[1] == 69 && t[2] == 84) || (t[0] == 80 && t[1] == 85 && t[2] == 84)
    } else if n == 4 {
        (t[0] == 72 && t[1] == 69 && t[2] == 65 && t[3] == 68) || (t[0] == 80 && t[1] == 79 && t[2]
            == 83 && t[3] == 84)
    } else if n == 5 {
        (t[0] == 84 && t[1] == 82 && t[2] == 65 && t[3] == 67 && t[4] == 69) || (t[0] == 80 && t[1]
            == 65 && t[2] == 84 && t[3] == 67 && t[4] == 72)
    } else if n == 6 {
        t[0] == 68 && t[1] == 69 && t[2] == 76 && t[3] == 69 && t[4] == 84 && t[5] == 69
    } else if n == 7 {
        (t[0] == 79 && t[1] == 80 && t[2] == 84 && t[3] == 73 && t[4] == 79 && t[5] == 78 && t[6]
            == 83) || (t[0] == 67 && t[1] == 79 && t[2] == 78 && t[3] == 78 && t[4] == 69 && t[5]
            == 67 && t[6] == 84)
    } else {
        false
    };
    if ok {
        Ok(())
    } else {
        Err(Error::HttpHeaderParseFailed)
    }
}

/// `HTTP/1.0` or `HTTP/1.1`: bytes `HTTP/1.` followed by `0` or `1`.
pub open spec fn is_request_version(t: Seq<u8>) -> bool {
    t.len() == 8 && t[0] == 72 && t[1] == 84 && t[2] == 84 && t[3] == 80 && t[4] == 47 && t[5]
        == 49 && t[6] == 46 && (t[7] == 48 || t[7] == 49)
}

/// Accepts exactly the version tokens `HTTP/1.0` and `HTTP/1.1`.
pub fn get_http_request_version(t: &[u8]) -> (r: Result<(), Error>)
    ensures
        r is Ok <==> is_request_version(t@),
        r is Err ==> r == Result::<(), Error>::Err(Error::HttpHeaderParseFailed),
{
    if t.len() == 8 && t[0] == 72 && t[1] == 84 && t[2] == 84 && t[3] == 80 && t[4] == 47 && t[5]
        == 49 && t[6] == 46 && (t[7] == 48 || t[7] == 49) {
        Ok(())
    } else {
        Err(Error::HttpHeaderParseFailed)
    }
}

/// Whether the start line is a well-formed request line: exactly three
/// space-separated tokens, the first a recognized method and the third a
/// recognized version.
pub open spec fn is_valid_request_line(l: Seq<u8>) -> bool {
    let t = spec_split_spaces(l);
    t.len() == 3 && is_http_method(t[0]) && is_request_version(t[2])
}

// ---------------------------------------------------------------------------
// HTTP/1 status lines
// ---------------------------------------------------------------------------
/// Whether the byte is an ASCII decimal digit.
pub open spec fn is_digit(b: u8) -> bool {
    48 <= b <= 57
}

/// Whether the start line is a well-formed status line: `HTTP/1.0 ` or
/// `HTTP/1.1 ` followed by exactly three decimal digits that end the line
/// or are followed by a space and the reason phrase.
pub open spec fn is_valid_status_line(l: Seq<u8>) -> bool {
    &&& l.len() >= 12
    &&& is_request_version(l.subrange(0, 8))
    &&& l[8] == BYTE_SPACE
    &&& is_digit(l[9])
    &&& is_digit(l[10])
    &&& is_digit(l[11])
    &&& (l.len() == 12 || l[12] == BYTE_SPACE)
}

/// The numeric status code of a well-formed status line.
pub open spec fn spec_status_line_code(l: Seq<u8>) -> u16 {
    ((l[9] - 48) * 100 + (l[10] - 48) * 10 + (l[11] - 48)) as u16
}

/// Parses an HTTP/1 status line into its version token (the bytes after
/// `HTTP/`) and its numeric status code.
pub fn get_http_resp_info(l: &[u8]) -> (r: Result<(Vec<u8>, u16), Error>)
    ensures
        r is Ok <==> is_valid_status_line(l@),
        r matches Ok((v, code)) ==> v@ == l@.subrange(5, 8) && code == spec_status_line_code(l@),
        r is Err ==> r == Result::<(Vec<u8>, u16), Error>::Err(Error::HttpHeaderParseFailed),
{
    if !(l.len() >= 12 && l[0] == 72 && l[1] == 84 && l[2] == 84 && l[3] == 80 && l[4] == 47 && l[5]
        == 49 && l[6] == 46 && (l[7] == 48 || l[7] == 49) && l[8] == BYTE_SPACE) {
        proof {
            if l@.len() >= 12 {
                assert(is_request_version(l@.subrange(0, 8)) ==> l@.subrange(0, 8)[0] == 72
                    && l@.subrange(0, 8)[1] == 84 && l@.subrange(0, 8)[2] == 84 && l@.subrange(
                    0,
                    8,
                )[3] == 80 && l@.subrange(0, 8)[4] == 47 && l@.subrange(0, 8)[5] == 49
                    && l@.subrange(0, 8)[6] == 46);
            }
        }
        return Err(Error::HttpHeaderParseFailed);
    }
    proof {
        assert(is_request_version(l@.subrange(0, 8)));
    }
    let d0 = l[9];
    let d1 = l[10];
    let d2 = l[11];
    if !(48 <= d0 && d0 <= 57 && 48 <= d1 && d1 <= 57 && 48 <= d2 && d2 <= 57) {
        return Err(Error::HttpHeaderParseFailed);
    }
    if !(l.len() == 12 || l[12] == BYTE_SPACE) {
        return Err(Error::HttpHeaderParseFailed);
    }
    let code: u16 = (d0 - 48) as u16 * 100 + (d1 - 48) as u16 * 10 + (d2 - 48) as u16;
    let mut version: Vec<u8> = Vec::new();
    version.push(l[5]);
    version.push(l[6]);
    version.push(l[7]);
    proof {
        assert(version@ =~= l@.subrange(5, 8));
    }
    Ok((version, code))
}

// ---------------------------------------------------------------------------
// First-glance classification of a payload as HTTP/1
// ---------------------------------------------------------------------------
/// Whether the payload opens with the bytes `HTTP`.
pub open spec fn starts_with_http(p: Seq<u8>) -> bool {
    p.len() >= 4 && p[0] == 72 && p[1] == 84 && p[2] == 84 && p[3] == 80
}

/// Whether the payload opens with a recognized request method.
pub open spec fn starts_with_method(p: Seq<u8>) -> bool {
    ||| (p.len() >= 3 && (is_token_get(p.subrange(0, 3)) || is_token_put(p.subrange(0, 3))))
    ||| (p.len() >= 4 && (is_token_head(p.subrange(0, 4)) || is_token_post(p.subrange(0, 4))))
    ||| (p.len() >= 5 && (is_token_trace(p.subrange(0, 5)) || is_token_patch(p.subrange(0, 5))))
    ||| (p.len() >= 6 && is_token_delete(p.subrange(0, 6)))
    ||| (p.len() >= 7 && (is_token_options(p.subrange(0, 7)) || is_token_connect(
        p.subrange(0, 7),
    )))
}

/// Whether a payload looks like HTTP/1 at first glance: it opens with
/// `HTTP` (a status line) or with a request method.
pub open spec fn spec_is_http_v1_payload(p: Seq<u8>) -> bool {
    starts_with_http(p) || starts_with_method(p)
}

/// First-glance check that a payload can be HTTP/1 at all.
pub fn is_http_v1_payload(p: &[u8]) -> (r: bool)
    ensures
        r == spec_is_http_v1_payload(p@),
{
    let n = p.len();
    if n >= 4 && p[0] == 72 && p[1] == 84 && p[2] == 84 && p[3] == 80 {
        return true;
    }
    let r = (n >= 3 && ((p[0] == 71 && p[1] == 69 && p[2] == 84) || (p[0] == 80 && p[1] == 85
        && p[2] == 84))) || (n >= 4 && ((p[0] == 72 && p[1] == 69 && p[2] == 65 && p[3] == 68) || (
    p[0] == 80 && p[1] == 79 && p[2] == 83 && p[3] == 84))) || (n >= 5 && ((p[0] == 84 && p[1]
        == 82 && p[2] == 65 && p[3] == 67 && p[4] == 69) || (p[0] == 80 && p[1] == 65 && p[2] == 84
        && p[3] == 67 && p[4] == 72))) || (n >= 6 && (p[0] == 68 && p[1] == 69 && p[2] == 76 && p[3]
        == 69 && p[4] == 84 && p[5] == 69)) || (n >= 7 && ((p[0] == 79 && p[1] == 80 && p[2] == 84
        && p[3] == 73 && p[4] == 79 && p[5] == 78 && p[6] == 83) || (p[0] == 67 && p[1] == 79
        && p[2] == 78 && p[3] == 78 && p[4] == 69 && p[5] == 67 && p[6] == 84)));
    proof {
        if n >= 3 {
            assert(p@.subrange(0, 3) =~= seq![p@[0], p@[1], p@[2]]);
        }
        if n >= 4 {
            assert(p@.subrange(0, 4) =~= seq![p@[0], p@[1], p@[2], p@[3]]);
        }
        if n >= 5 {
            assert(p@.subrange(0, 5) =~= seq![p@[0], p@[1], p@[2], p@[3], p@[4]]);
        }
        if n >= 6 {
            assert(p@.subrange(0, 6) =~= seq![p@[0], p@[1], p@[2], p@[3], p@[4], p@[5]]);
        }
        if n >= 7 {
            assert(p@.subrange(0, 7) =~= seq![p@[0], p@[1], p@[2], p@[3], p@[4], p@[5], p@[6]]);
        }
    }
    r
}

// ---------------------------------------------------------------------------
// HTTP/2 framing
// ---------------------------------------------------------------------------
/// Whole length of the HTTP/2 connection preface `PRI * HTTP/2.0\r\n\r\nSM\r\n\r\n`.
pub const HTTPV2_MAGIC_LENGTH: usize = 24;

/// Size of the fixed frame header: 24-bit length, type, flags, 31-bit
/// stream id.
pub const H2C_HEADER_SIZE: usize = 9;

/// Frame type tag of a HEADERS frame.
pub const FRAME_HEADERS: u8 = 1;

/// Largest defined frame type tag (CONTINUATION).
pub const FRAME_TYPE_MAX: u8 = 9;

/// HEADERS flag: a one-byte pad length precedes the header block.
pub const FLAG_HEADERS_PADDED: u8 = 8;

/// HEADERS flag: a five-byte priority block precedes the header block.
pub const FLAG_HEADERS_PRIORITY: u8 = 32;

/// Whether the bytes at `i` open with the preface prefix `PRI * HTTP/2`
/// and at least a whole preface of bytes remains.
pub open spec fn spec_has_magic_at(p: Seq<u8>, i: int) -> bool {
    &&& p.len() - i >= HTTPV2_MAGIC_LENGTH
    &&& p[i] == 80
    &&& p[i + 1] == 82
    &&& p[i + 2] == 73
    &&& p[i + 3] == 32
    &&& p[i + 4] == 42
    &&& p[i + 5] == 32
    &&& p[i + 6] == 72
    &&& p[i + 7] == 84
    &&& p[i + 8] == 84
    &&& p[i + 9] == 80
    &&& p[i + 10] == 47
    &&& p[i + 11] == 50
}

/// Preface check starting at an arbitrary cursor position.
pub fn has_magic_at(p: &[u8], i: usize) -> (r: bool)
    requires
        i <= p@.len(),
    ensures
        r == spec_has_magic_at(p@, i as int),
{
    p.len() - i >= HTTPV2_MAGIC_LENGTH && p[i] == 80 && p[i + 1] == 82 && p[i + 2] == 73 && p[i + 3]
        == 32 && p[i + 4] == 42 && p[i + 5] == 32 && p[i + 6] == 72 && p[i + 7] == 84 && p[i + 8]
        == 84 && p[i + 9] == 80 && p[i + 10] == 47 && p[i + 11] == 50
}

/// The fixed header of one HTTP/2 frame.
#[derive(Clone, Copy, Debug, PartialEq, Eq, Structural)]
pub struct Httpv2Headers {
    pub frame_length: u32,
    pub frame_type: u8,
    pub flags: u8,
    pub stream_id: u32,
}

impl Default for Httpv2Headers {
    fn default() -> (r: Self)
        ensures
            r == (Httpv2Headers { frame_length: 0, frame_type: 0, flags: 0, stream_id: 0 }),
    {
        Httpv2Headers { frame_length: 0, frame_type: 0, flags: 0, stream_id: 0 }
    }
}

/// Whether the nine bytes at `i` form an acceptable frame header: a
/// defined frame type and a clear reserved bit before the stream id.
pub open spec fn spec_frame_header_ok(p: Seq<u8>, i: int) -> bool {
    p[i + 3] <= FRAME_TYPE_MAX && p[i + 5] & 0x80 == 0
}

/// The frame header read from the nine bytes at `i`: big-endian 24-bit
/// payload length, type, flags, big-endian 31-bit stream id.
pub open spec fn spec_frame_header_at(p: Seq<u8>, i: int) -> Httpv2Headers {
    Httpv2Headers {
        frame_length: ((p[i] as u32) << 16 | (p[i + 1] as u32) << 8 | (p[i + 2] as u32)) as u32,
        frame_type: p[i + 3],
        flags: p[i + 4],
        stream_id: ((p[i + 5] as u32) << 24 | (p[i + 6] as u32) << 16 | (p[i + 7] as u32) << 8 | (p[
            i + 8] as u32)) as u32,
    }
}

impl Httpv2Headers {
    /// Reads the fixed frame header from the front of `payload`,
    /// rejecting undefined frame types and a set reserved bit.
    pub fn parse_headers_frame(&mut self, payload: &[u8]) -> (r: Result<(), Error>)
        requires
            payload@.len() >= H2C_HEADER_SIZE,
        ensures
            r is Ok <==> spec_frame_header_ok(payload@, 0),
            r is Ok ==> *final(self) == spec_frame_header_at(payload@, 0),
            r is Err ==> *final(self) == *old(self) && r == Result::<(), Error>::Err(
                Error::HttpHeaderParseFailed,
            ),
    {
        let frame_type = payload[3];
        if frame_type > FRAME_TYPE_MAX {
            return Err(Error::HttpHeaderParseFailed);
        }
        if payload[5] & 0x80 != 0 {
            return Err(Error::HttpHeaderParseFailed);
        }
        self.frame_length = (payload[0] as u32) << 16 | (payload[1] as u32) << 8 | (
        payload[2] as u32);
        self.frame_type = frame_type;
        self.flags = payload[4];
        self.stream_id = (payload[5] as u32) << 24 | (payload[6] as u32) << 16 | (
        payload[7] as u32) << 8 | (payload[8] as u32);
        Ok(())
    }
}

/// Scans the payload from `i` for the first HEADERS frame: preface bytes
/// are skipped wherever they appear, other frames are skipped whole, and
/// the scan fails on an undefined frame header, a HEADERS frame on stream
/// zero, a skip that runs past the capture, or no HEADERS frame at all.
/// On success it yields the HEADERS frame header and the position just
/// after it.
pub open spec fn spec_find_headers_frame(p: Seq<u8>, i: int) -> Option<(Httpv2Headers, int)>
    decreases p.len() - i,
{
    if i < 0 || p.len() - i <= H2C_HEADER_SIZE {
        None
    } else if spec_has_magic_at(p, i) {
        spec_find_headers_frame(p, i + HTTPV2_MAGIC_LENGTH)
    } else if !spec_frame_header_ok(p, i) {
        None
    } else {
        let h = spec_frame_header_at(p, i);
        if h.frame_type == FRAME_HEADERS {
            if h.stream_id == 0 {
                None
            } else {
                Some((h, i + H2C_HEADER_SIZE))
            }
        } else if p.len() - i <= h.frame_length + H2C_HEADER_SIZE {
            None
        } else {
            spec_find_headers_frame(p, i + H2C_HEADER_SIZE + h.frame_length)
        }
    }
}

// ---------------------------------------------------------------------------
// HPACK block framing
// ---------------------------------------------------------------------------
// An HPACK block is a sequence of field representations; each starts with
// a prefix integer and a literal field carries one or two length-prefixed
// strings.  The decompressor called behind `hpack_decode` reads a byte
// unconditionally wherever the framing promises one: at the first octet
// of a string, and at each continuation octet of a prefix integer.  The
// spec functions below walk exactly that framing so that a block whose
// promised bytes are missing can be rejected up front, in verified code,
// and the decompressor is only ever called on blocks it can refuse
// gracefully.
//
// A prefix integer whose value fills its prefix continues in follow-up
// octets, seven bits each, least significant first, at most four of them.
/// Whether the continuation-octet walk that starts at `i` (first octet
/// after the prefix at `p`) runs past the end of the block.
pub open spec fn spec_cont_panics(b: Seq<u8>, p: int, i: int) -> bool
    decreases p + 5 - i,
{
    if i <= p || i > p + 4 {
        false
    } else if i >= b.len() {
        true
    } else if b[i] & 0x80 == 0 {
        false
    } else if i == p + 4 {
        false
    } else {
        spec_cont_panics(b, p, i + 1)
    }
}

/// Whether the continuation-octet walk ends on a final octet within the
/// block and within the octet limit.
pub open spec fn spec_cont_fits(b: Seq<u8>, p: int, i: int) -> bool
    decreases p + 5 - i,
{
    if i <= p || i > p + 4 || i >= b.len() {
        false
    } else if b[i] & 0x80 == 0 {
        true
    } else if i == p + 4 {
        false
    } else {
        spec_cont_fits(b, p, i + 1)
    }
}

/// The position just after the last continuation octet.
pub open spec fn spec_cont_end(b: Seq<u8>, p: int, i: int) -> int
    decreases p + 5 - i,
{
    if i <= p || i > p + 4 || i >= b.len() {
        i
    } else if b[i] & 0x80 == 0 {
        i + 1
    } else if i == p + 4 {
        i + 1
    } else {
        spec_cont_end(b, p, i + 1)
    }
}

/// The integer value the continuation octets stand for, seven bits per
/// octet, least significant first, on top of the prefix value `acc`.
pub open spec fn spec_cont_value(b: Seq<u8>, p: int, i: int, mult: int, acc: int) -> int
    decreases p + 5 - i,
{
    if i <= p || i > p + 4 || i >= b.len() {
        acc
    } else if b[i] & 0x80 == 0 {
        acc + (b[i] & 0x7f) * mult
    } else if i == p + 4 {
        acc
    } else {
        spec_cont_value(b, p, i + 1, mult * 128, acc + (b[i] & 0x7f) * mult)
    }
}

/// Whether reading the prefix integer at `p` would read past the end of
/// the block (a missing first octet is refused gracefully, a missing
/// continuation octet is not).
pub open spec fn spec_int_panics(b: Seq<u8>, p: int, mask: u8) -> bool {
    p < b.len() && (b[p] & mask) == mask && spec_cont_panics(b, p, p + 1)
}

/// Whether the prefix integer at `p` decodes within the block.
pub open spec fn spec_int_fits(b: Seq<u8>, p: int, mask: u8) -> bool {
    p < b.len() && ((b[p] & mask) != mask || spec_cont_fits(b, p, p + 1))
}

/// The position just after the prefix integer at `p`.
pub open spec fn spec_int_end(b: Seq<u8>, p: int, mask: u8) -> int {
    if p < b.len() && (b[p] & mask) != mask {
        p + 1
    } else {
        spec_cont_end(b, p, p + 1)
    }
}

/// The value of the prefix integer at `p`.
pub open spec fn spec_int_value(b: Seq<u8>, p: int, mask: u8) -> int {
    if p < b.len() && (b[p] & mask) != mask {
        (b[p] & mask) as int
    } else if p < b.len() {
        spec_cont_value(b, p, p + 1, 1, (b[p] & mask) as int)
    } else {
        0
    }
}

/// Whether reading the length-prefixed string at `p` would read past the
/// end of the block: its first octet is read unconditionally, so an
/// empty rest is enough to do it.
pub open spec fn spec_str_panics(b: Seq<u8>, p: int) -> bool {
    p >= b.len() || spec_int_panics(b, p, 0x7f)
}

/// Whether the string at `p` declares a length that fits in the block.
pub open spec fn spec_str_fits(b: Seq<u8>, p: int) -> bool {
    p < b.len() && spec_int_fits(b, p, 0x7f) && spec_int_value(b, p, 0x7f) <= b.len()
        - spec_int_end(b, p, 0x7f)
}

/// The position just after the string at `p`.
pub open spec fn spec_str_end(b: Seq<u8>, p: int) -> int {
    spec_int_end(b, p, 0x7f) + spec_int_value(b, p, 0x7f)
}

/// The next walk position: `q` where the framing placed it, and one past
/// `p` as a floor so the walk always advances.
pub open spec fn spec_pos_after(p: int, q: int) -> int {
    if q > p {
        q
    } else {
        p + 1
    }
}

/// A walk position held within the block, for measuring how much of the
/// block is left.
pub open spec fn spec_pos_clamp(p: int, n: int) -> int {
    if p > n {
        n
    } else {
        p
    }
}

/// Whether decompressing the block never reads past its end: every
/// field representation's prefix integer and every literal string the
/// framing promises either lies whole inside the block or is cut at a
/// point the decompressor refuses gracefully.  Field kinds follow the
/// representation's first octet: indexed (high bit), literal with
/// incremental indexing (bit six, one or two strings), a table-size
/// update (bit five alone, integer only), and the remaining literal
/// forms (one or two strings).
pub open spec fn spec_hpack_safe_from(b: Seq<u8>, p: int) -> bool
    decreases b.len() - spec_pos_clamp(p, b.len() as int),
{
    if p < 0 || p >= b.len() {
        true
    } else {
        let o = b[p];
        if o & 0x80 != 0 {
            &&& !spec_int_panics(b, p, 0x7f)
            &&& (spec_int_fits(b, p, 0x7f) ==> spec_hpack_safe_from(
                b,
                spec_pos_after(p, spec_int_end(b, p, 0x7f)),
            ))
        } else if o & 0x40 == 0 && o & 0x20 != 0 {
            &&& !spec_int_panics(b, p, 0x1f)
            &&& (spec_int_fits(b, p, 0x1f) ==> spec_hpack_safe_from(
                b,
                spec_pos_after(p, spec_int_end(b, p, 0x1f)),
            ))
        } else {
            let mask: u8 = if o & 0x40 != 0 {
                0x3f
            } else {
                0x0f
            };
            &&& !spec_int_panics(b, p, mask)
            &&& (spec_int_fits(b, p, mask) ==> {
                let c = spec_pos_after(p, spec_int_end(b, p, mask));
                if spec_int_value(b, p, mask) == 0 {
                    &&& !spec_str_panics(b, c)
                    &&& (spec_str_fits(b, c) ==> {
                        let c2 = spec_pos_after(c, spec_str_end(b, c));
                        &&& !spec_str_panics(b, c2)
                        &&& (spec_str_fits(b, c2) ==> spec_hpack_safe_from(
                            b,
                            spec_pos_after(c2, spec_str_end(b, c2)),
                        ))
                    })
                } else {
                    &&& !spec_str_panics(b, c)
                    &&& (spec_str_fits(b, c) ==> spec_hpack_safe_from(
                        b,
                        spec_pos_after(c, spec_str_end(b, c)),
                    ))
                }
            })
        }
    }
}

/// Outcome of probing one prefix integer: whether reading it would run
/// past the block, whether it decodes, and where it ends with what
/// value.
struct IntProbe {
    panics: bool,
    fits: bool,
    end: usize,
    value: u64,
}

/// Probes the prefix integer at `p` without decoding anything else.
fn probe_int(b: &[u8], p: usize, mask: u8) -> (r: IntProbe)
    requires
        p < b@.len(),
    ensures
        r.panics == spec_int_panics(b@, p as int, mask),
        r.fits == spec_int_fits(b@, p as int, mask),
        r.fits ==> r.end == spec_int_end(b@, p as int, mask) && p < r.end <= b@.len(),
        r.fits ==> r.value == spec_int_value(b@, p as int, mask),
{
    let first = b[p] & mask;
    if first != mask {
        return IntProbe { panics: false, fits: true, end: p + 1, value: first as u64 };
    }
    let n = b.len();
    let mut i: usize = p + 1;
    let mut mult: u64 = 1;
    let mut acc: u64 = first as u64;
    loop
        invariant
            n == b@.len(),
            p < n,
            first == (b@[p as int] & mask),
            first == mask,
            p + 1 <= i <= p + 4,
            i == p + 1 ==> mult == 1 && acc <= 0xff,
            i == p + 2 ==> mult == 128 && acc <= 0x200,
            i == p + 3 ==> mult == 16384 && acc <= 0x10000,
            i == p + 4 ==> mult == 0x200000 && acc <= 0x400000,
            spec_cont_panics(b@, p as int, p + 1) == spec_cont_panics(b@, p as int, i as int),
            spec_cont_fits(b@, p as int, p + 1) == spec_cont_fits(b@, p as int, i as int),
            spec_cont_fits(b@, p as int, i as int) ==> spec_cont_end(b@, p as int, p + 1)
                == spec_cont_end(b@, p as int, i as int),
            spec_cont_value(b@, p as int, p + 1, 1, first as int) == spec_cont_value(
                b@,
                p as int,
                i as int,
                mult as int,
                acc as int,
            ),
        decreases p + 5 - i,
    {
        if i >= n {
            return IntProbe { panics: true, fits: false, end: i, value: 0 };
        }
        let byte = b[i];
        proof {
            assert((byte & 0x7f) <= 0x7f) by (bit_vector);
            assert(mult == 1 || mult == 128 || mult == 16384 || mult == 0x200000);
        }
        let add: u64 = ((byte & 0x7f) as u64) * mult;
        proof {
            assert(add <= 0x7f * 0x200000 && acc + add <= 0x400000 + 0x7f * 0x200000);
        }
        if byte & 0x80 == 0 {
            return IntProbe { panics: false, fits: true, end: i + 1, value: acc + add };
        }
        if i - p == 4 {
            return IntProbe { panics: false, fits: false, end: i + 1, value: 0 };
        }
        acc = acc + add;
        mult = mult * 128;
        i = i + 1;
    }
}

/// The continuation walk cannot both run past the block and end on a
/// final octet inside it.
proof fn lemma_cont_exclusive(b: Seq<u8>, p: int, i: int)
    ensures
        !(spec_cont_panics(b, p, i) && spec_cont_fits(b, p, i)),
    decreases p + 5 - i,
{
    if p < i <= p + 4 && i < b.len() && b[i] & 0x80 != 0 && i != p + 4 {
        lemma_cont_exclusive(b, p, i + 1);
    }
}

/// Outcome of probing one length-prefixed string.
struct StrProbe {
    panics: bool,
    fits: bool,
    end: usize,
}

/// Probes the string at `p` without decoding its contents.
fn probe_str(b: &[u8], p: usize) -> (r: StrProbe)
    ensures
        r.panics == spec_str_panics(b@, p as int),
        r.fits == spec_str_fits(b@, p as int),
        r.fits ==> r.end == spec_str_end(b@, p as int) && p < r.end <= b@.len(),
{
    let n = b.len();
    if p >= n {
        return StrProbe { panics: true, fits: false, end: p };
    }
    let pr = probe_int(b, p, 0x7f);
    if pr.panics {
        proof {
            lemma_cont_exclusive(b@, p as int, p + 1);
        }
        return StrProbe { panics: true, fits: false, end: p };
    }
    if !pr.fits {
        return StrProbe { panics: false, fits: false, end: p };
    }
    let remaining: u64 = (n - pr.end) as u64;
    if pr.value > remaining {
        return StrProbe { panics: false, fits: false, end: p };
    }
    StrProbe { panics: false, fits: true, end: pr.end + (pr.value as usize) }
}

/// Walks the whole block's framing and accepts it only when the
/// decompressor can read it without running past the end.
pub fn hpack_block_safe(block: &[u8]) -> (r: bool)
    ensures
        r == spec_hpack_safe_from(block@, 0),
{
    let n = block.len();
    let mut p: usize = 0;
    while p < n
        invariant
            n == block@.len(),
            0 <= p <= n,
            spec_hpack_safe_from(block@, 0) == spec_hpack_safe_from(block@, p as int),
        decreases n - p,
    {
        let o = block[p];
        if o & 0x80 != 0 {
            let pr = probe_int(block, p, 0x7f);
            if pr.panics {
                return false;
            }
            if !pr.fits {
                return true;
            }
            p = pr.end;
        } else if o & 0x40 == 0 && o & 0x20 != 0 {
            let pr = probe_int(block, p, 0x1f);
            if pr.panics {
                return false;
            }
            if !pr.fits {
                return true;
            }
            p = pr.end;
        } else {
            let mask: u8 = if o & 0x40 != 0 {
                0x3f
            } else {
                0x0f
            };
            let pr = probe_int(block, p, mask);
            if pr.panics {
                return false;
            }
            if !pr.fits {
                return true;
            }
            let c = pr.end;
            let s1 = probe_str(block, c);
            if s1.panics {
                return false;
            }
            if !s1.fits {
                return true;
            }
            if pr.value == 0 {
                let s2 = probe_str(block, s1.end);
                if s2.panics {
                    return false;
                }
                if !s2.fits {
                    return true;
                }
                p = s2.end;
            } else {
                p = s1.end;
            }
        }
    }
    true
}

// ---------------------------------------------------------------------------
// HPACK decoding and pseudo-header scanning
// ---------------------------------------------------------------------------
/// The header list a standard HPACK decompressor with a fresh dynamic
/// table yields for a block whose framing stays inside it, as (name,
/// value, flags) triples, or nothing when the block is malformed.
pub uninterp spec fn hpack_headers_of(block: Seq<u8>) -> Option<Seq<(Seq<u8>, Seq<u8>, u8)>>;

/// Relies on `httlib_hpack::Decoder::decode`: with the default (fresh)
/// decoder state the decoded header list is a function of the block
/// bytes alone.  A block whose string framing runs past its end makes
/// that decoder read out of bounds, so only blocks the verified framing
/// walk accepts are handed to it; those it either decodes or refuses
/// with an error of its own.
#[verifier::external_body]
pub(crate) fn hpack_decode(block: &[u8]) -> (r: Option<Vec<(Vec<u8>, Vec<u8>, u8)>>)
    requires
        spec_hpack_safe_from(block@, 0),
    ensures
        r.deep_view() == hpack_headers_of(block@),
{
    let mut decoder = httlib_hpack::Decoder::default();
    let mut buf = block.to_vec();
    let mut dst = Vec::new();
    match decoder.decode(&mut buf, &mut dst) {
        Ok(_) => Some(dst),
        Err(_) => None,
    }
}

/// The value of a string of decimal digits, read left to right.
pub open spec fn spec_digits_val(v: Seq<u8>) -> int
    decreases v.len(),
{
    if v.len() == 0 {
        0
    } else {
        spec_digits_val(v.drop_last()) * 10 + (v.last() - 48)
    }
}

/// Whether every byte is an ASCII decimal digit.
pub open spec fn spec_all_digits(v: Seq<u8>) -> bool {
    forall|i: int| 0 <= i < v.len() ==> is_digit(#[trigger] v[i])
}

/// The status code a pseudo-header value stands for: the value of a
/// non-empty string of decimal digits when it fits a 16-bit code, zero
/// for anything malformed.
pub open spec fn spec_dec_u16(v: Seq<u8>) -> u16 {
    if v.len() > 0 && spec_all_digits(v) && spec_digits_val(v) <= 65535 {
        spec_digits_val(v) as u16
    } else {
        0
    }
}

/// A longer digit string never stands for a smaller value.
proof fn lemma_digits_val_prefix(v: Seq<u8>, i: int)
    requires
        spec_all_digits(v),
        0 <= i <= v.len(),
    ensures
        spec_digits_val(v.subrange(0, i)) <= spec_digits_val(v),
        spec_digits_val(v) >= 0,
    decreases v.len() - i,
{
    assert(v.subrange(0, v.len() as int) =~= v);
    if i < v.len() {
        lemma_digits_val_prefix(v, i + 1);
        assert(v.subrange(0, i + 1).drop_last() =~= v.subrange(0, i));
        assert(spec_digits_val(v.subrange(0, i + 1)) == spec_digits_val(v.subrange(0, i)) * 10 + (
        v[i] - 48));
        lemma_digits_val_nonneg(v.subrange(0, i));
    } else {
        lemma_digits_val_nonneg(v);
    }
}

/// A string of digits never stands for a negative value.
proof fn lemma_digits_val_nonneg(v: Seq<u8>)
    requires
        spec_all_digits(v),
    ensures
        spec_digits_val(v) >= 0,
    decreases v.len(),
{
    if v.len() > 0 {
        assert(spec_all_digits(v.drop_last())) by {
            assert(forall|i: int|
                0 <= i < v.len() - 1 ==> #[trigger] v.drop_last()[i] == v[i]);
        }
        lemma_digits_val_nonneg(v.drop_last());
        assert(is_digit(v.last()));
    }
}

/// Reads a status-code value: a non-empty string of decimal digits whose
/// value fits 16 bits; anything else counts as zero.
pub fn parse_status_value(v: &[u8]) -> (r: u16)
    ensures
        r == spec_dec_u16(v@),
{
    let n = v.len();
    if n == 0 {
        return 0;
    }
    let mut acc: u32 = 0;
    let mut i: usize = 0;
    proof {
        assert(v@.subrange(0, 0) =~= Seq::<u8>::empty());
    }
    while i < n
        invariant
            n == v@.len(),
            0 <= i <= n,
            spec_all_digits(v@.subrange(0, i as int)),
            acc == spec_digits_val(v@.subrange(0, i as int)),
            acc <= 65535,
        decreases n - i,
    {
        let b = v[i];
        proof {
            assert(v@.subrange(0, i + 1).drop_last() =~= v@.subrange(0, i as int));
            assert(v@.subrange(0, i + 1).last() == v@[i as int]);
        }
        if b < 48 || b > 57 {
            proof {
                assert(!is_digit(v@[i as int]));
                assert(!spec_all_digits(v@));
            }
            return 0;
        }
        let next: u32 = acc * 10 + (b - 48) as u32;
        if next > 65535 {
            proof {
                assert(spec_digits_val(v@.subrange(0, i + 1)) == next);
                if spec_all_digits(v@) {
                    lemma_digits_val_prefix(v@, i + 1);
                }
            }
            return 0;
        }
        acc = next;
        i = i + 1;
    }
    proof {
        assert(v@.subrange(0, n as int) =~= v@);
    }
    acc as u16
}

/// `:method`
pub open spec fn is_name_method(t: Seq<u8>) -> bool {
    t.len() == 7 && t[0] == 58 && t[1] == 109 && t[2] == 101 && t[3] == 116 && t[4] == 104 && t[5]
        == 111 && t[6] == 100
}

/// `:status`
pub open spec fn is_name_status(t: Seq<u8>) -> bool {
    t.len() == 7 && t[0] == 58 && t[1] == 115 && t[2] == 116 && t[3] == 97 && t[4] == 116 && t[5]
        == 117 && t[6] == 115
}

/// The classification the decoded header list stands for, decided by the
/// first pseudo-header found: `:method` marks a request (status code
/// zero), `:status` marks a response carrying its value, and a list with
/// neither classifies nothing.
pub open spec fn spec_scan_pseudo_headers(hs: Seq<(Seq<u8>, Seq<u8>, u8)>) -> Option<u16>
    decreases hs.len(),
{
    if hs.len() == 0 {
        None
    } else if is_name_method(hs[0].0) {
        Some(0u16)
    } else if is_name_status(hs[0].0) {
        Some(spec_dec_u16(hs[0].1))
    } else {
        spec_scan_pseudo_headers(hs.drop_first())
    }
}

/// Walks a decoded header list for the first `:method` or `:status`
/// pseudo-header and returns the status code it stands for; a list with
/// neither is a grammar failure.
pub fn status_from_header_list(headers: &Vec<(Vec<u8>, Vec<u8>, u8)>) -> (r: Result<u16, Error>)
    ensures
        r is Ok <==> spec_scan_pseudo_headers(headers.deep_view()) is Some,
        r matches Ok(code) ==> spec_scan_pseudo_headers(headers.deep_view()) == Some(code),
        r is Err ==> r == Result::<u16, Error>::Err(Error::HttpHeaderParseFailed),
{
    let ghost hs = headers.deep_view();
    let n = headers.len();
    let mut i: usize = 0;
    proof {
        assert(hs.skip(0) =~= hs);
    }
    while i < n
        invariant
            n == headers@.len(),
            hs == headers.deep_view(),
            0 <= i <= n,
            spec_scan_pseudo_headers(hs) == spec_scan_pseudo_headers(hs.skip(i as int)),
        decreases n - i,
    {
        let name = &headers[i].0;
        proof {
            assert(hs.skip(i as int)[0] == hs[i as int]);
            assert(hs.skip(i as int).drop_first() =~= hs.skip(i + 1));
            assert(hs[i as int].0 == name.deep_view());
            assert(name.deep_view() =~= name@);
        }
        if name.len() == 7 && name[0] == 58 && name[1] == 109 && name[2] == 101 && name[3] == 116
            && name[4] == 104 && name[5] == 111 && name[6] == 100 {
            return Ok(0);
        }
        if name.len() == 7 && name[0] == 58 && name[1] == 115 && name[2] == 116 && name[3] == 97
            && name[4] == 116 && name[5] == 117 && name[6] == 115 {
            let value = &headers[i].1;
            let code = parse_status_value(value.as_slice());
            proof {
                assert(hs[i as int].1 == value.deep_view());
                assert(value.deep_view() =~= value@);
            }
            return Ok(code);
        }
        i = i + 1;
    }
    Err(Error::HttpHeaderParseFailed)
}

/// The classification a HEADERS frame payload stands for, or nothing
/// when the padding and priority bookkeeping is inconsistent with the
/// buffer, the header block's framing runs past its end, the block does
/// not decompress, or no pseudo-header decides: an optional one-byte pad
/// length (PADDED flag) and an optional five-byte priority block
/// (PRIORITY flag) precede the header block fragment, and pad-length
/// trailing bytes follow it.
pub open spec fn spec_headers_payload_result(h: Httpv2Headers, p: Seq<u8>) -> Option<u16> {
    let padded = h.flags & FLAG_HEADERS_PADDED != 0;
    let prio = h.flags & FLAG_HEADERS_PRIORITY != 0;
    if padded && p.len() < 1 {
        None
    } else {
        let pad: int = if padded {
            p[0] as int
        } else {
            0
        };
        if padded && pad > h.frame_length {
            None
        } else {
            let loff: int = (if padded {
                1int
            } else {
                0int
            }) + (if prio {
                5int
            } else {
                0int
            });
            if p.len() <= loff {
                None
            } else {
                let end: int = h.frame_length - pad;
                if end > p.len() || end < loff {
                    None
                } else if !spec_hpack_safe_from(p.subrange(loff, end), 0) {
                    None
                } else {
                    match hpack_headers_of(p.subrange(loff, end)) {
                        Some(hs) => spec_scan_pseudo_headers(hs),
                        None => None,
                    }
                }
            }
        }
    }
}

} // verus!


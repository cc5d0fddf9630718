use l7flow::error::Error;
use l7flow::http::{hpack_block_safe, status_from_header_list, Httpv2Headers};
use l7flow::perf::HttpPerfData;

const PREFACE: &[u8] = b"PRI * HTTP/2.0\r\n\r\nSM\r\n\r\n";

fn frame(frame_type: u8, flags: u8, stream_id: u32, payload: &[u8]) -> Vec<u8> {
    let len = payload.len() as u32;
    let mut f = vec![(len >> 16) as u8, (len >> 8) as u8, len as u8];
    f.push(frame_type);
    f.push(flags);
    f.extend_from_slice(&stream_id.to_be_bytes());
    f.extend_from_slice(payload);
    f
}

#[test]
fn magic_preface_detected() {
    assert!(HttpPerfData::has_magic(PREFACE));
    assert!(!HttpPerfData::has_magic(&PREFACE[..23]));
    assert!(!HttpPerfData::has_magic(b"PRI * HTTP/1.1 xxxxxxxxxx"));
}

#[test]
fn frame_header_fields() {
    let mut h = Httpv2Headers::default();
    let bytes = frame(1, 0x04, 7, &[0x82]);
    h.parse_headers_frame(&bytes).unwrap();
    assert_eq!(h.frame_length, 1);
    assert_eq!(h.frame_type, 1);
    assert_eq!(h.flags, 0x04);
    assert_eq!(h.stream_id, 7);
}

#[test]
fn frame_header_rejects_reserved_bit_and_bad_type() {
    let mut h = Httpv2Headers::default();
    // Reserved bit before the stream id is set.
    let bad_reserved = vec![0, 0, 1, 1, 0, 0x80, 0, 0, 1];
    assert!(h.parse_headers_frame(&bad_reserved).is_err());
    // Frame type above CONTINUATION.
    let bad_type = vec![0, 0, 1, 10, 0, 0, 0, 0, 1];
    assert!(h.parse_headers_frame(&bad_type).is_err());
}

#[test]
fn headers_after_other_frames_and_preface() {
    // SETTINGS (type 4) first, then the HEADERS frame; a preface sits in
    // front of everything.
    let mut bytes = PREFACE.to_vec();
    bytes.extend_from_slice(&frame(4, 0, 0, &[0, 0, 0, 0, 0, 0]));
    bytes.extend_from_slice(&frame(1, 0, 3, &[0x88]));
    let (h, code) = HttpPerfData::parse_frame(&bytes).unwrap();
    assert_eq!(h.stream_id, 3);
    assert_eq!(code, 200);
}

#[test]
fn headers_on_stream_zero_rejected() {
    let bytes = frame(1, 0, 0, &[0x88]);
    assert!(HttpPerfData::parse_frame(&bytes).is_err());
}

#[test]
fn truncated_frame_rejected() {
    // A DATA frame declaring more bytes than the capture holds.
    let mut bytes = frame(0, 0, 1, &[1, 2, 3]);
    bytes.truncate(9 + 1);
    bytes.extend_from_slice(&[0u8; 2]); // keep some trailing bytes, still short
    assert_eq!(
        HttpPerfData::parse_frame(&bytes),
        Err(Error::HttpFrameTruncated)
    );
}

#[test]
fn padded_headers_frame() {
    // Payload: pad length 2, header block [0x88], two padding bytes;
    // frame length 4.
    let h = Httpv2Headers { frame_length: 4, frame_type: 1, flags: 0x08, stream_id: 1 };
    let payload = [2u8, 0x88, 0, 0];
    assert_eq!(HttpPerfData::parse_headers_frame_payload(&h, &payload).unwrap(), 200);
    // A pad length larger than the frame is inconsistent.
    let bad = Httpv2Headers { frame_length: 4, frame_type: 1, flags: 0x08, stream_id: 1 };
    let payload = [9u8, 0x88, 0, 0];
    assert!(HttpPerfData::parse_headers_frame_payload(&bad, &payload).is_err());
}

#[test]
fn priority_block_skipped() {
    // Five priority bytes precede the header block; frame length 6.
    let h = Httpv2Headers { frame_length: 6, frame_type: 1, flags: 0x20, stream_id: 1 };
    let payload = [0u8, 0, 0, 3, 15, 0x88];
    assert_eq!(HttpPerfData::parse_headers_frame_payload(&h, &payload).unwrap(), 200);
}

#[test]
fn literal_status_header_decodes() {
    // Literal header field without indexing, new name `:status`, value
    // `404`; exercises the HPACK decompressor on a non-indexed block.
    let mut block = vec![0x00u8];
    block.push(7);
    block.extend_from_slice(b":status");
    block.push(3);
    block.extend_from_slice(b"404");
    let h = Httpv2Headers {
        frame_length: block.len() as u32,
        frame_type: 1,
        flags: 0,
        stream_id: 1,
    };
    assert_eq!(HttpPerfData::parse_headers_frame_payload(&h, &block).unwrap(), 404);
}

#[test]
fn garbage_header_block_rejected() {
    // 0xC1 indexes a static-table slot that does not exist.
    let h = Httpv2Headers { frame_length: 1, frame_type: 1, flags: 0, stream_id: 1 };
    assert!(HttpPerfData::parse_headers_frame_payload(&h, &[0xC1]).is_err());
}

#[test]
fn header_blocks_with_missing_promised_bytes_rejected() {
    // Each of these blocks promises bytes it does not hold: a literal
    // with an indexed name but no value string, a literal with a new
    // name and neither string, an indexed field whose prefix integer is
    // cut before its continuation octet, and a table-size update cut
    // the same way.  All fail classification instead of reaching the
    // decompressor.
    for block in [&[0x02u8][..], &[0x40], &[0x00], &[0xFF], &[0x3F]] {
        assert!(!hpack_block_safe(block));
        let h = Httpv2Headers {
            frame_length: block.len() as u32,
            frame_type: 1,
            flags: 0,
            stream_id: 1,
        };
        assert_eq!(
            HttpPerfData::parse_headers_frame_payload(&h, block),
            Err(Error::HttpHeaderParseFailed)
        );
    }
}

#[test]
fn framing_walk_accepts_what_the_decompressor_can_refuse_itself() {
    // Indexed fields and whole literals pass the walk.
    assert!(hpack_block_safe(&[]));
    assert!(hpack_block_safe(&[0x82, 0x88]));
    // A prefix integer with a whole continuation octet passes the walk;
    // the index misses the table, which the decompressor refuses
    // gracefully.
    assert!(hpack_block_safe(&[0xFF, 0x01]));
    let h = Httpv2Headers { frame_length: 2, frame_type: 1, flags: 0, stream_id: 1 };
    assert!(HttpPerfData::parse_headers_frame_payload(&h, &[0xFF, 0x01]).is_err());
    // A string whose declared length overruns the block passes the walk
    // only if the decompressor's own bounds check catches it; here it
    // does, so the walk may accept and the decode still fails.
    assert!(hpack_block_safe(&[0x00, 0x02, 0x61]));
    let h = Httpv2Headers { frame_length: 3, frame_type: 1, flags: 0, stream_id: 1 };
    assert!(HttpPerfData::parse_headers_frame_payload(&h, &[0x00, 0x02, 0x61]).is_err());
}

#[test]
fn truncated_header_block_fails_whole_packet_classification() {
    // The ten-byte payload that drives the truncated literal through
    // the full parse path: frame header, then the one-byte block 0x02.
    let bytes = frame(1, 0, 1, &[0x02]);
    assert!(HttpPerfData::parse_frame(&bytes).is_err());
}

#[test]
fn pseudo_header_scan_takes_first_match() {
    let method = (b":method".to_vec(), b"GET".to_vec(), 0u8);
    let status = (b":status".to_vec(), b"503".to_vec(), 0u8);
    let plain = (b"accept".to_vec(), b"*/*".to_vec(), 0u8);

    assert_eq!(status_from_header_list(&vec![method.clone()]).unwrap(), 0);
    assert_eq!(status_from_header_list(&vec![plain.clone(), status.clone()]).unwrap(), 503);
    // The first pseudo-header decides.
    assert_eq!(
        status_from_header_list(&vec![method.clone(), status.clone()]).unwrap(),
        0
    );
    assert!(status_from_header_list(&vec![plain.clone()]).is_err());
    assert!(status_from_header_list(&Vec::new()).is_err());
}

use l7flow::http::{
    check_http_method, get_http_request_version, get_http_resp_info, is_http_v1_payload,
    parse_lines, parse_status_value, split_spaces,
};

#[test]
fn recognized_methods_accepted() {
    for m in [
        &b"OPTIONS"[..],
        b"GET",
        b"HEAD",
        b"POST",
        b"PUT",
        b"DELETE",
        b"TRACE",
        b"CONNECT",
        b"PATCH",
    ] {
        assert!(check_http_method(m).is_ok());
    }
}

#[test]
fn unrecognized_methods_rejected() {
    for m in [&b"get"[..], b"GETX", b"FETCH", b"", b"G", b"OPTION"] {
        assert!(check_http_method(m).is_err());
    }
}

#[test]
fn request_versions() {
    assert!(get_http_request_version(b"HTTP/1.0").is_ok());
    assert!(get_http_request_version(b"HTTP/1.1").is_ok());
    assert!(get_http_request_version(b"HTTP/2.0").is_err());
    assert!(get_http_request_version(b"HTTP/1.2").is_err());
    assert!(get_http_request_version(b"http/1.1").is_err());
    assert!(get_http_request_version(b"HTTP/1.1 ").is_err());
}

#[test]
fn status_lines() {
    let (version, code) = get_http_resp_info(b"HTTP/1.1 404 Not Found").unwrap();
    assert_eq!(version, b"1.1".to_vec());
    assert_eq!(code, 404);
    let (version, code) = get_http_resp_info(b"HTTP/1.0 200 OK").unwrap();
    assert_eq!(version, b"1.0".to_vec());
    assert_eq!(code, 200);
    // A code may end the line.
    assert_eq!(get_http_resp_info(b"HTTP/1.1 204\r").is_ok(), false); // '\r' is stripped before, but raw here
    assert_eq!(get_http_resp_info(b"HTTP/1.1 204").unwrap().1, 204);
    assert!(get_http_resp_info(b"HTTP/2.0 200 OK").is_err());
    assert!(get_http_resp_info(b"HTTP/1.1 2x0 OK").is_err());
    assert!(get_http_resp_info(b"HTTP/1.1 20").is_err());
    assert!(get_http_resp_info(b"HTTP/1.1 9999").is_err());
    assert!(get_http_resp_info(b"").is_err());
}

#[test]
fn first_glance_classification() {
    assert!(is_http_v1_payload(b"HTTP/1.1 200 OK\r\n"));
    assert!(is_http_v1_payload(b"GET / HTTP/1.1\r\n"));
    assert!(is_http_v1_payload(b"DELETE /a HTTP/1.0\r\n"));
    assert!(!is_http_v1_payload(b"SSH-2.0-OpenSSH\r\n"));
    assert!(!is_http_v1_payload(b""));
    assert!(!is_http_v1_payload(b"GE"));
}

#[test]
fn lines_split_on_crlf() {
    let lines = parse_lines(b"AB\r\nCD\r\n");
    assert_eq!(lines, vec![b"AB".to_vec(), b"CD".to_vec()]);
    // Bytes after the last terminator are discarded with the unfinished
    // line.
    let lines = parse_lines(b"AB\r\nCD");
    assert_eq!(lines, vec![b"AB".to_vec()]);
    // No terminator, no line.
    assert!(parse_lines(b"ABCD").is_empty());
    // A terminator is never recognized within the first three bytes.
    let lines = parse_lines(b"A\r\nB\r\n");
    assert_eq!(lines, vec![b"A\nB".to_vec()]);
}

#[test]
fn tokens_split_on_single_spaces() {
    let t = split_spaces(b"GET /x HTTP/1.1");
    assert_eq!(t, vec![b"GET".to_vec(), b"/x".to_vec(), b"HTTP/1.1".to_vec()]);
    // A doubled space yields a detectable empty token.
    let t = split_spaces(b"GET  /x HTTP/1.1");
    assert_eq!(t.len(), 4);
    assert_eq!(t[1], b"".to_vec());
    // The trailing token is always produced.
    assert_eq!(split_spaces(b""), vec![b"".to_vec()]);
}

#[test]
fn status_values_parse_or_default_to_zero() {
    assert_eq!(parse_status_value(b"200"), 200);
    assert_eq!(parse_status_value(b"0070"), 70);
    assert_eq!(parse_status_value(b"65535"), 65535);
    assert_eq!(parse_status_value(b"65536"), 0);
    assert_eq!(parse_status_value(b"99999"), 0);
    assert_eq!(parse_status_value(b""), 0);
    assert_eq!(parse_status_value(b"20a"), 0);
    assert_eq!(parse_status_value(b"-20"), 0);
}

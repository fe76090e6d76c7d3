use sign_firmware::framing::{
    advance, create_raw_request, create_raw_request_no_body, find_crlfcrlf, find_headers_end,
    Request, ScanState,
};

fn request(method: &str, uri: &str, headers: &[(&str, &str)], body: &str) -> Request {
    Request {
        method: method.to_string(),
        uri: uri.to_string(),
        headers: headers
            .iter()
            .map(|(k, v)| (k.to_string(), v.to_string()))
            .collect(),
        body: body.to_string(),
    }
}

#[test]
fn request_head_has_request_line_headers_and_blank_line() {
    let req = request(
        "GET",
        "https://example.com/path",
        &[("User-Agent", "PHSign/1.0.0"), ("Host", "example.com")],
        "",
    );
    let text = create_raw_request_no_body(&req);
    assert_eq!(
        text,
        "GET https://example.com/path HTTP/1.1\r\nUser-Agent: PHSign/1.0.0\r\nHost: example.com\r\n\r\n"
    );
}

#[test]
fn request_head_without_headers_is_just_the_request_line() {
    let req = request("GET", "/", &[], "");
    assert_eq!(create_raw_request_no_body(&req), "GET / HTTP/1.1\r\n\r\n");
}

#[test]
fn full_request_appends_the_body_verbatim() {
    let req = request("POST", "/print", &[("Content-Length", "4")], "data");
    assert_eq!(
        create_raw_request(&req),
        "POST /print HTTP/1.1\r\nContent-Length: 4\r\n\r\ndata"
    );
}

#[test]
fn cursor_finds_the_boundary_exactly_after_the_blank_line() {
    // Fed one byte at a time, the cursor returns exactly after the second
    // CRLF, leaving the body as the next readable bytes.
    let bytes = b"HTTP/1.1 200 OK\r\nContent-Type: text/plain\r\n\r\nBODY";
    let mut state = ScanState::Idle;
    let mut found_at: Option<usize> = None;
    for (i, b) in bytes.iter().enumerate() {
        state = advance(state, *b);
        if state == ScanState::Found {
            found_at = Some(i + 1);
            break;
        }
    }
    let at = found_at.expect("boundary");
    assert_eq!(at, bytes.len() - 4);
    assert_eq!(&bytes[at..], b"BODY");
}

#[test]
fn buffered_scan_agrees_with_the_cursor() {
    let bytes = b"HTTP/1.1 200 OK\r\nContent-Type: text/plain\r\n\r\nBODY";
    assert_eq!(find_headers_end(bytes), Some(bytes.len() - 4));
}

#[test]
fn cursor_restarts_after_a_broken_boundary() {
    let bytes = b"a\r\nx\r\n\r\nrest";
    assert_eq!(find_headers_end(bytes), Some(8));
}

#[test]
fn cursor_reports_nothing_without_a_boundary() {
    assert_eq!(find_headers_end(b"HTTP/1.1 200 OK\r\n"), None);
    assert_eq!(find_crlfcrlf(b"HTTP/1.1 200 OK\r\n"), None);
}

#[test]
fn substring_search_finds_the_first_boundary() {
    let bytes = b"h\r\n\r\nbody\r\n\r\ntail";
    assert_eq!(find_crlfcrlf(bytes), Some(1));
}

#[test]
fn a_response_may_begin_with_the_boundary() {
    assert_eq!(find_crlfcrlf(b"\r\n\r\nbody"), Some(0));
    assert_eq!(find_headers_end(b"\r\n\r\nbody"), Some(4));
}

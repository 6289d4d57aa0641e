use gurl::transport::{classify_status, parse_response, HttpStatus, StatusClass, TransportClient,
    TransportError};

#[test]
fn request_carries_exact_byte_length() {
    let client = TransportClient::new("registry.example".to_owned(), 8081);
    let req = client.build_request("POST /derivations", Some("hello"));
    let expected = "POST /derivations HTTP/1.1\r\n\
        Host: registry.example\r\n\
        Content-Type: application/json\r\n\
        Content-Length: 5\r\n\
        Connection: close\r\n\r\nhello";
    assert_eq!(req.as_str(), expected);
}

#[test]
fn request_length_counts_bytes_not_chars() {
    let client = TransportClient::new("h".to_owned(), 8081);
    // two characters, but five bytes of UTF-8
    let body = "aé\u{1F600}";
    assert_eq!(body.len(), 7);
    let req = client.build_request("POST /derivations", Some(body));
    assert!(req.contains("Content-Length: 7\r\n"));
}

#[test]
fn absent_body_defaults_to_braces() {
    let client = TransportClient::new("registry.example".to_owned(), 8081);
    let req = client.build_request("GET /derivations", None);
    assert!(req.ends_with("Content-Length: 2\r\nConnection: close\r\n\r\n{}"));
}

#[test]
fn empty_body_has_length_zero() {
    let client = TransportClient::new("h".to_owned(), 8081);
    let req = client.build_request("POST /derivations", Some(""));
    assert!(req.ends_with("Content-Length: 0\r\nConnection: close\r\n\r\n"));
}

#[test]
fn status_message_is_trimmed_but_keeps_inner_spaces() {
    let st = HttpStatus::parse("HTTP/1.1 200 OK \r\nnext").unwrap();
    assert_eq!(st.status_message.as_str(), "OK");
    let st2 = HttpStatus::parse("HTTP/1.1 500 Internal  Error").unwrap();
    assert_eq!(st2.status_message.as_str(), "Internal  Error");
}

#[test]
fn status_line_parses() {
    let st = HttpStatus::parse("HTTP/1.1 200 OK").unwrap();
    assert_eq!(st.status_code, 200);
    assert_eq!(st.status_message.as_str(), "OK");
}

#[test]
fn status_message_spans_spaces() {
    let st = HttpStatus::parse("HTTP/1.1 404 Not Found\r\nServer: x").unwrap();
    assert_eq!(st.status_code, 404);
    assert_eq!(st.status_message.as_str(), "Not Found");
}

#[test]
fn status_line_without_message() {
    let st = HttpStatus::parse("HTTP/1.1 204").unwrap();
    assert_eq!(st.status_code, 204);
    assert_eq!(st.status_message.as_str(), "");
}

#[test]
fn malformed_status_lines_are_rejected_not_crashed() {
    assert!(HttpStatus::parse("").is_none());
    assert!(HttpStatus::parse("junk").is_none());
    assert!(HttpStatus::parse("HTTP/1.1 abc OK").is_none());
    assert!(HttpStatus::parse("HTTP/1.1 99999999999 Too Big").is_none());
}

#[test]
fn negative_status_code_parses_like_the_integer_parser() {
    let st = HttpStatus::parse("HTTP/1.1 -7 Odd").unwrap();
    assert_eq!(st.status_code, -7);
}

#[test]
fn only_200_is_success() {
    for (code, expect) in [(200, true), (201, false), (404, false), (500, false)] {
        let line = format!("HTTP/1.1 {} X", code);
        let st = HttpStatus::parse(&line).unwrap();
        assert_eq!(st.success(), expect, "code {}", code);
    }
}

#[test]
fn classification_buckets() {
    let parse = |line: &str| HttpStatus::parse(line);
    assert!(matches!(classify_status(&parse("HTTP/1.1 200 OK")), StatusClass::Success));
    assert!(matches!(classify_status(&parse("HTTP/1.1 404 NF")), StatusClass::ClientError(404)));
    assert!(matches!(classify_status(&parse("HTTP/1.1 500 ISE")), StatusClass::ServerError(500)));
    assert!(matches!(classify_status(&parse("HTTP/1.1 201 Created")), StatusClass::Other(201)));
    assert!(matches!(classify_status(&parse("nope")), StatusClass::Malformed));
}

#[test]
fn response_splits_at_first_blank_line() {
    let resp = "HTTP/1.1 200 OK\r\nContent-Type: application/json\r\n\r\n{\"a\":1}";
    let parsed = parse_response(resp).unwrap();
    assert_eq!(parsed.status.status_code, 200);
    assert_eq!(parsed.body.as_str(), "{\"a\":1}");
    assert!(parsed.has_body);
}

#[test]
fn missing_boundary_yields_empty_body_not_error() {
    let parsed = parse_response("HTTP/1.1 200 OK\r\nHeader: only").unwrap();
    assert_eq!(parsed.status.status_code, 200);
    assert_eq!(parsed.body.as_str(), "");
    assert!(!parsed.has_body);
}

#[test]
fn body_keeps_later_boundaries() {
    let resp = "HTTP/1.1 200 OK\r\n\r\nfirst\r\n\r\nsecond";
    let parsed = parse_response(resp).unwrap();
    assert_eq!(parsed.body.as_str(), "first\r\n\r\nsecond");
}

#[test]
fn unparseable_status_line_is_a_protocol_error() {
    let err = parse_response("garbage with no code\r\n\r\nbody").unwrap_err();
    assert!(matches!(err, TransportError::Protocol));
}

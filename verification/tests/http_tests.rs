//! Request classification and response formatting.

use bookwork::http::{build_response, classify_request, response_filename, status_line,
    str_starts_with, to_decimal, RequestKind};

#[test]
fn the_two_probe_paths_are_recognised() {
    assert_eq!(classify_request("GET / HTTP/1.1\r\nHost: here\r\n"), RequestKind::Fast);
    assert_eq!(classify_request("GET /sleep HTTP/1.1\r\n"), RequestKind::Slow);
    assert_eq!(classify_request("GET /other HTTP/1.1\r\n"), RequestKind::NotFound);
    assert_eq!(classify_request("POST / HTTP/1.1\r\n"), RequestKind::NotFound);
    assert_eq!(classify_request(""), RequestKind::NotFound);
}

#[test]
fn prefixes_are_prefixes() {
    assert!(str_starts_with("abcde", "abc"));
    assert!(str_starts_with("abc", ""));
    assert!(str_starts_with("abc", "abc"));
    assert!(!str_starts_with("abc", "abcd"));
    assert!(!str_starts_with("abc", "abd"));
}

#[test]
fn status_lines_and_files_follow_the_kind() {
    assert_eq!(status_line(RequestKind::Fast), "HTTP/1.1 200 OK");
    assert_eq!(status_line(RequestKind::Slow), "HTTP/1.1 200 OK");
    assert_eq!(status_line(RequestKind::NotFound), "HTTP/1.1 404 NOT FOUND");
    assert_eq!(response_filename(RequestKind::Fast), "hello.html");
    assert_eq!(response_filename(RequestKind::Slow), "hello.html");
    assert_eq!(response_filename(RequestKind::NotFound), "404.html");
}

#[test]
fn decimals_render_exactly() {
    assert_eq!(to_decimal(0), "0");
    assert_eq!(to_decimal(7), "7");
    assert_eq!(to_decimal(10), "10");
    assert_eq!(to_decimal(105), "105");
    assert_eq!(to_decimal(98765), "98765");
}

#[test]
fn the_response_carries_length_and_body() {
    let response = build_response("HTTP/1.1 200 OK", "hello");
    assert_eq!(response, "HTTP/1.1 200 OK\r\nContent-Length: 5\r\n\r\nhello");

    let empty = build_response("HTTP/1.1 404 NOT FOUND", "");
    assert_eq!(empty, "HTTP/1.1 404 NOT FOUND\r\nContent-Length: 0\r\n\r\n");
}

//! The header model and the wire-level parsers on concrete inputs.

use http_core::error::HttpError;
use http_core::headers::{
    ConnectionHeaderValue, HttpHeaderName, HttpHeaderValue, HttpHeaders,
};
use http_core::method::HttpMethod;
use http_core::request::{parse_header_line, HttpFirstRow};
use http_core::text::{parse_u16, parse_usize, trim, usize_to_string};

#[test]
fn request_line_splits_into_three_tokens() {
    let row = HttpFirstRow::parse("GET /kitty HTTP/1.1\r\n").unwrap();
    assert_eq!(row.method, "GET");
    assert_eq!(row.resource, "/kitty");
    assert_eq!(row.protocol, "HTTP/1.1");
}

#[test]
fn request_line_preserves_case_of_path_and_version() {
    let row = HttpFirstRow::parse("get /CaseSensitive/Path http/1.1\r\n").unwrap();
    assert_eq!(row.method, "get");
    assert_eq!(row.resource, "/CaseSensitive/Path");
    assert_eq!(row.protocol, "http/1.1");
    assert!(matches!(HttpMethod::parse(&row.method), HttpMethod::GET));
}

#[test]
fn request_line_accepts_any_unicode_whitespace_separator() {
    // vertical tab and the Unicode line separator split tokens just as
    // str::split_whitespace does
    let row = HttpFirstRow::parse("GET\u{000B}/ HTTP/1.1\r\n").unwrap();
    assert_eq!(row.method, "GET");
    assert_eq!(row.resource, "/");
    assert_eq!(row.protocol, "HTTP/1.1");
    assert_eq!(
        HttpFirstRow::parse("GET / HTTP/1.1\u{2028}extra\r\n").unwrap_err(),
        HttpError::MalformedRequestLine
    );
}

#[test]
fn request_line_with_wrong_token_count_is_malformed() {
    assert_eq!(
        HttpFirstRow::parse("GET /\r\n").unwrap_err(),
        HttpError::MalformedRequestLine
    );
    assert_eq!(
        HttpFirstRow::parse("\r\n").unwrap_err(),
        HttpError::MalformedRequestLine
    );
    assert_eq!(
        HttpFirstRow::parse("GET / HTTP/1.1 extra\r\n").unwrap_err(),
        HttpError::MalformedRequestLine
    );
}

#[test]
fn method_normalizes_known_verbs_and_keeps_unknown() {
    assert!(matches!(HttpMethod::parse("POST"), HttpMethod::POST));
    assert!(matches!(HttpMethod::parse("delete"), HttpMethod::DELETE));
    match HttpMethod::parse("BREW") {
        HttpMethod::Custom(s) => assert_eq!(s, "BREW"),
        other => panic!("expected Custom, got {:?}", other),
    }
}

#[test]
fn header_line_splits_at_first_colon_and_trims() {
    let (key, value) = parse_header_line("Host: localhost:7878\r\n").unwrap();
    assert_eq!(key, "Host");
    assert_eq!(value, "localhost:7878");
    let (key, value) = parse_header_line("  X-Pad  :  spaced out  \r\n").unwrap();
    assert_eq!(key, "X-Pad");
    assert_eq!(value, "spaced out");
}

#[test]
fn header_line_without_colon_is_malformed() {
    assert_eq!(
        parse_header_line("no separator here\r\n").unwrap_err(),
        HttpError::MalformedHeaderLine
    );
}

#[test]
fn header_names_compare_by_canonical_form() {
    let a = HttpHeaderName::parse("content-LENGTH");
    let b = HttpHeaderName::parse("Content-Length");
    assert!(a == b);
    assert!(matches!(a, HttpHeaderName::ContentLength));
    let c = HttpHeaderName::parse("X-Something");
    let d = HttpHeaderName::parse("x-something");
    assert!(c == d);
    assert!(matches!(c, HttpHeaderName::Custom(_)));
    assert_eq!(HttpHeaderName::parse("X-Something").as_str(), "X-Something");
    assert_eq!(HttpHeaderName::parse("connection").as_str(), "Connection");
}

#[test]
fn content_length_parses_and_defaults_to_zero() {
    let name = HttpHeaderName::ContentLength;
    assert_eq!(
        HttpHeaderValue::parse(&name, "42"),
        HttpHeaderValue::ContentLength(42)
    );
    assert_eq!(
        HttpHeaderValue::parse(&name, "+7"),
        HttpHeaderValue::ContentLength(7)
    );
    assert_eq!(
        HttpHeaderValue::parse(&name, "not a number"),
        HttpHeaderValue::ContentLength(0)
    );
    assert_eq!(
        HttpHeaderValue::parse(&name, "++7"),
        HttpHeaderValue::ContentLength(0)
    );
    assert_eq!(
        HttpHeaderValue::parse(&name, "99999999999999999999999999"),
        HttpHeaderValue::ContentLength(0)
    );
    assert_eq!(
        HttpHeaderValue::parse(&name, ""),
        HttpHeaderValue::ContentLength(0)
    );
}

#[test]
fn host_splits_host_and_port() {
    let name = HttpHeaderName::Host;
    assert_eq!(
        HttpHeaderValue::parse(&name, "localhost:7878"),
        HttpHeaderValue::Host(String::from("localhost"), Some(7878))
    );
    assert_eq!(
        HttpHeaderValue::parse(&name, "localhost"),
        HttpHeaderValue::Host(String::from("localhost"), None)
    );
    // a leading + on the port is read, as str::parse would
    assert_eq!(
        HttpHeaderValue::parse(&name, "localhost:+80"),
        HttpHeaderValue::Host(String::from("localhost"), Some(80))
    );
    // port above u16 range is dropped
    assert_eq!(
        HttpHeaderValue::parse(&name, "localhost:70000"),
        HttpHeaderValue::Host(String::from("localhost"), None)
    );
    // only the segment between the first two colons is read as the port
    assert_eq!(
        HttpHeaderValue::parse(&name, "a:8080:junk"),
        HttpHeaderValue::Host(String::from("a"), Some(8080))
    );
}

#[test]
fn connection_values_resolve_without_case() {
    let name = HttpHeaderName::Connection;
    assert_eq!(
        HttpHeaderValue::parse(&name, "Close"),
        HttpHeaderValue::Connection(ConnectionHeaderValue::Close)
    );
    assert_eq!(
        HttpHeaderValue::parse(&name, "keep-alive"),
        HttpHeaderValue::Connection(ConnectionHeaderValue::KeepAlive)
    );
    assert_eq!(
        HttpHeaderValue::parse(&name, "UPGRADE"),
        HttpHeaderValue::Connection(ConnectionHeaderValue::Upgrade)
    );
    assert_eq!(
        HttpHeaderValue::parse(&name, "weird"),
        HttpHeaderValue::Connection(ConnectionHeaderValue::Custom(String::from("weird")))
    );
}

#[test]
fn values_render_their_canonical_text() {
    assert_eq!(HttpHeaderValue::ContentLength(11).as_str(), "11");
    assert_eq!(
        HttpHeaderValue::Host(String::from("h"), Some(7878)).as_str(),
        "h:7878"
    );
    // a Host that arrived without a port renders with port 80
    assert_eq!(HttpHeaderValue::Host(String::from("h"), None).as_str(), "h:80");
    assert_eq!(
        HttpHeaderValue::Connection(ConnectionHeaderValue::Close).as_str(),
        "close"
    );
    assert_eq!(ConnectionHeaderValue::KeepAlive.as_str(), "keep-alive");
}

#[test]
fn content_length_and_host_round_trip_semantically() {
    let cl_name = HttpHeaderName::ContentLength;
    let v = HttpHeaderValue::ContentLength(7878);
    assert_eq!(HttpHeaderValue::parse(&cl_name, &v.as_str()), v);

    let host_name = HttpHeaderName::Host;
    let v = HttpHeaderValue::Host(String::from("example.test"), Some(80));
    assert_eq!(HttpHeaderValue::parse(&host_name, &v.as_str()), v);

    let conn_name = HttpHeaderName::Connection;
    let v = HttpHeaderValue::Connection(ConnectionHeaderValue::KeepAlive);
    assert_eq!(HttpHeaderValue::parse(&conn_name, &v.as_str()), v);
}

#[test]
fn table_groups_values_by_name_case_insensitively() {
    let mut headers = HttpHeaders::new();
    headers.add(HttpHeaderName::parse("Accept"), "text/html");
    headers.add(HttpHeaderName::parse("ACCEPT"), "application/json");
    headers.add(HttpHeaderName::parse("Content-Length"), "5");
    let accept = headers.get(&HttpHeaderName::Accept).unwrap();
    assert_eq!(accept.len(), 2);
    assert_eq!(accept[0], HttpHeaderValue::Raw(String::from("text/html")));
    assert_eq!(accept[1], HttpHeaderValue::Raw(String::from("application/json")));
    assert_eq!(headers.content_length(), Some(5));
    assert_eq!(headers.get_one_raw(&HttpHeaderName::Accept), Some("text/html"));
    assert_eq!(headers.get(&HttpHeaderName::Cookie), None);
}

#[test]
fn table_accessors_read_the_first_typed_value() {
    let mut headers = HttpHeaders::new();
    headers.add(HttpHeaderName::parse("Host"), "localhost:7878");
    headers.add(HttpHeaderName::parse("Content-Type"), "text/html");
    assert_eq!(headers.host(), Some(("localhost", Some(7878))));
    assert_eq!(headers.content_type(), Some("text/html"));
    assert_eq!(headers.content_length(), None);
}

#[test]
fn table_renders_wire_lines_in_order() {
    let mut headers = HttpHeaders::new();
    headers.add(HttpHeaderName::parse("content-type"), "text/html");
    headers.add(HttpHeaderName::parse("Connection"), "close");
    assert_eq!(
        headers.render(),
        "Content-Type: text/html\r\nConnection: close\r\n"
    );
}

#[test]
fn decimal_numerals_parse_and_render() {
    assert_eq!(parse_usize("0"), Some(0));
    assert_eq!(parse_usize("007"), Some(7));
    assert_eq!(parse_usize("7878"), Some(7878));
    assert_eq!(parse_usize("+42"), Some(42));
    assert_eq!(parse_usize("+"), None);
    assert_eq!(parse_usize("++7"), None);
    assert_eq!(parse_usize(""), None);
    assert_eq!(parse_usize("1x"), None);
    assert_eq!(parse_usize("-3"), None);
    assert_eq!(parse_usize("99999999999999999999999999"), None);
    assert_eq!(parse_u16("65535"), Some(65535));
    assert_eq!(parse_u16("65536"), None);
    assert_eq!(usize_to_string(0), "0");
    assert_eq!(usize_to_string(12345), "12345");
}

#[test]
fn trim_removes_surrounding_whitespace_only() {
    assert_eq!(trim("  a b \r\n"), "a b");
    assert_eq!(trim("x"), "x");
    assert_eq!(trim(" \t\r\n "), "");
    assert_eq!(trim("\u{A0}x\u{A0}"), "x");
}

//! Response construction, header injection, and serialization.

use http_core::headers::{HttpHeaderName, HttpHeaderValue};
use http_core::response::HttpResponse;
use http_core::router::Router;
use http_core::server::{Args, Server};

#[test]
fn fresh_response_is_200_and_empty() {
    let res = HttpResponse::new();
    assert_eq!(res.status_code, 200);
    assert_eq!(res.body, "");
    assert_eq!(res.content_length(), 0);
}

#[test]
fn content_length_counts_bytes_not_characters() {
    let mut res = HttpResponse::new();
    res.body = String::from("h\u{e9}llo");
    assert_eq!(res.body.chars().count(), 5);
    assert_eq!(res.content_length(), 6);
}

#[test]
fn finalize_overwrites_stale_framing_headers() {
    let mut res = HttpResponse::new();
    res.add_header(HttpHeaderName::ContentLength, "999");
    res.add_header(HttpHeaderName::Connection, "upgrade");
    res.body = String::from("abc");
    res.finalize(true);
    assert_eq!(res.headers.content_length(), Some(3));
    let conn = res.headers.get(&HttpHeaderName::Connection).unwrap();
    assert_eq!(conn.len(), 1);
    assert_eq!(
        conn[0],
        HttpHeaderValue::Connection(http_core::headers::ConnectionHeaderValue::KeepAlive)
    );
}

#[test]
fn encode_produces_the_exact_wire_image() {
    let mut res = HttpResponse::new();
    res.status_code = 404;
    res.body = String::from("x");
    res.finalize(false);
    assert_eq!(
        res.encode(),
        "HTTP/1.1 404\r\nContent-Length: 1\r\nConnection: close\r\n\r\nx"
    );
}

#[test]
fn server_keeps_its_configuration() {
    let server = Server::new(Router::new(), "127.0.0.1", 7878);
    assert_eq!(server.host, "127.0.0.1");
    assert_eq!(server.port, 7878);
    let args = Args { use_keep_alive: true };
    assert!(args.use_keep_alive);
}

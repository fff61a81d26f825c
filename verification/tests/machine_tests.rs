//! The per-connection state machine driven through whole exchanges.

use http_core::error::HttpError;
use http_core::machine::{config_forces_close, should_keep_alive, step, ConnAction, ConnEvent, ConnState};
use http_core::server::Args;
use http_core::request::HttpRequest;
use http_core::response::HttpResponse;
use http_core::router::Router;

fn line(text: &str) -> ConnEvent {
    ConnEvent::Line { text: String::from(text) }
}

/// Feeds a whole request's lines (and body, if any) and returns the state
/// and the dispatched request.
fn feed_request(mut state: ConnState, lines: &[&str], body: Option<Vec<u8>>) -> (ConnState, HttpRequest) {
    for l in lines {
        let (next, action) = step(state, line(l));
        state = next;
        match action {
            ConnAction::ReadLine => {}
            ConnAction::ReadBody { count } => {
                let bytes = body.clone().expect("machine asked for a body");
                assert_eq!(count, bytes.len());
                let (next, action) = step(state, ConnEvent::BodyBytes { bytes });
                state = next;
                match action {
                    ConnAction::Dispatch { request } => return (state, request),
                    other => panic!("expected Dispatch, got {:?}", other),
                }
            }
            ConnAction::Dispatch { request } => return (state, request),
            other => panic!("unexpected action {:?}", other),
        }
    }
    panic!("request never dispatched");
}

#[test]
fn empty_stream_is_a_malformed_request() {
    let (state, action) = step(ConnState::AwaitingRequestLine, ConnEvent::EndOfStream);
    assert!(matches!(state, ConnState::Failed { error: HttpError::MalformedRequestLine }));
    assert!(matches!(action, ConnAction::Abort { error: HttpError::MalformedRequestLine }));
}

#[test]
fn bad_request_line_aborts() {
    let (_, action) = step(ConnState::AwaitingRequestLine, line("GET /\r\n"));
    assert!(matches!(action, ConnAction::Abort { error: HttpError::MalformedRequestLine }));
}

#[test]
fn header_line_without_colon_aborts() {
    let (state, _) = step(ConnState::AwaitingRequestLine, line("GET / HTTP/1.1\r\n"));
    let (_, action) = step(state, line("this line has no separator\r\n"));
    assert!(matches!(action, ConnAction::Abort { error: HttpError::MalformedHeaderLine }));
}

#[test]
fn timeout_and_io_failure_are_fatal() {
    let (state, action) = step(ConnState::AwaitingRequestLine, ConnEvent::TimedOut);
    assert!(matches!(state, ConnState::Failed { error: HttpError::ConnectionTimeout }));
    assert!(matches!(action, ConnAction::Abort { error: HttpError::ConnectionTimeout }));
    let (_, action) = step(ConnState::AwaitingRequestLine, ConnEvent::IoFailed);
    assert!(matches!(action, ConnAction::Abort { error: HttpError::IoError }));
}

#[test]
fn absent_content_length_gives_empty_body() {
    let (_, request) = feed_request(
        ConnState::AwaitingRequestLine,
        &["GET / HTTP/1.1\r\n", "Host: localhost\r\n", "\r\n"],
        None,
    );
    assert_eq!(request.body, Some(Vec::new()));
}

#[test]
fn zero_content_length_gives_empty_body() {
    let (_, request) = feed_request(
        ConnState::AwaitingRequestLine,
        &["POST / HTTP/1.1\r\n", "Content-Length: 0\r\n", "\r\n"],
        None,
    );
    assert_eq!(request.body, Some(Vec::new()));
}

#[test]
fn body_is_read_to_exactly_content_length() {
    let (_, request) = feed_request(
        ConnState::AwaitingRequestLine,
        &["POST / HTTP/1.1\r\n", "Content-Length: 5\r\n", "\r\n"],
        Some(b"hello".to_vec()),
    );
    assert_eq!(request.body, Some(b"hello".to_vec()));
}

#[test]
fn short_body_is_truncated() {
    let (mut state, _) = step(ConnState::AwaitingRequestLine, line("POST / HTTP/1.1\r\n"));
    let r = step(state, line("Content-Length: 5\r\n"));
    state = r.0;
    let (next, action) = step(state, line("\r\n"));
    assert!(matches!(action, ConnAction::ReadBody { count: 5 }));
    let (next, action) = step(next, ConnEvent::BodyBytes { bytes: b"he".to_vec() });
    assert!(matches!(next, ConnState::Failed { error: HttpError::TruncatedBody }));
    assert!(matches!(action, ConnAction::Abort { error: HttpError::TruncatedBody }));
}

#[test]
fn stream_end_also_closes_the_header_section() {
    let (state, _) = step(ConnState::AwaitingRequestLine, line("GET / HTTP/1.1\r\n"));
    let (state, _) = step(state, line("Host: x\r\n"));
    let (_, action) = step(state, ConnEvent::EndOfStream);
    match action {
        ConnAction::Dispatch { request } => {
            assert_eq!(request.path, "/");
            assert_eq!(request.body, Some(Vec::new()));
        }
        other => panic!("expected Dispatch, got {:?}", other),
    }
}

#[test]
fn keep_alive_reads_the_connection_header() {
    let (_, request) = feed_request(
        ConnState::AwaitingRequestLine,
        &["GET / HTTP/1.1\r\n", "Connection: close\r\n", "\r\n"],
        None,
    );
    assert!(!should_keep_alive(&request.headers));

    let (_, request) = feed_request(
        ConnState::AwaitingRequestLine,
        &["GET / HTTP/1.1\r\n", "Connection: keep-alive\r\n", "\r\n"],
        None,
    );
    assert!(should_keep_alive(&request.headers));

    let (_, request) = feed_request(
        ConnState::AwaitingRequestLine,
        &["GET / HTTP/1.1\r\n", "Host: x\r\n", "\r\n"],
        None,
    );
    assert!(should_keep_alive(&request.headers));
}

#[test]
fn close_sends_one_response_then_closes() {
    // the concrete scenario: GET / with Connection: close against a route
    // table binding "/" to a handler that writes "<h1>hi</h1>"
    let mut router = Router::new();
    router.add_route("/", 0);

    let (state, request) = feed_request(
        ConnState::AwaitingRequestLine,
        &[
            "GET / HTTP/1.1\r\n",
            "Host: localhost:7878\r\n",
            "Connection: close\r\n",
            "\r\n",
        ],
        None,
    );
    assert_eq!(request.path, "/");
    assert_eq!(router.route_for(&request.path), Some(0));

    // the handler bound to "/"
    let mut response = HttpResponse::new();
    response.body = String::from("<h1>hi</h1>");

    let (state, action) = step(state, ConnEvent::HandlerDone { response });
    let text = match action {
        ConnAction::WriteResponse { text, keep_alive } => {
            assert!(!keep_alive);
            text
        }
        other => panic!("expected WriteResponse, got {:?}", other),
    };
    assert!(text.starts_with("HTTP/1.1 200\r\n"));
    assert!(text.contains("Content-Length: 11"));
    assert!(text.contains("Connection: close"));
    assert!(text.ends_with("<h1>hi</h1>"));

    let (state, action) = step(state, ConnEvent::WriteDone);
    assert!(matches!(state, ConnState::Closed));
    assert!(matches!(action, ConnAction::CloseStream));
}

#[test]
fn pipelined_requests_keep_the_stream_until_close() {
    // first request asks for keep-alive explicitly
    let (state, _req) = feed_request(
        ConnState::AwaitingRequestLine,
        &["GET / HTTP/1.1\r\n", "Connection: keep-alive\r\n", "\r\n"],
        None,
    );
    let (state, action) = step(state, ConnEvent::HandlerDone { response: HttpResponse::new() });
    assert!(matches!(action, ConnAction::WriteResponse { keep_alive: true, .. }));
    let (state, action) = step(state, ConnEvent::WriteDone);
    assert!(matches!(state, ConnState::AwaitingRequestLine));
    assert!(matches!(action, ConnAction::ReadLine));

    // second request carries no Connection header: keep-alive by default
    let (state, _req) = feed_request(state, &["GET /kitty HTTP/1.1\r\n", "\r\n"], None);
    let (state, action) = step(state, ConnEvent::HandlerDone { response: HttpResponse::new() });
    assert!(matches!(action, ConnAction::WriteResponse { keep_alive: true, .. }));
    let (state, action) = step(state, ConnEvent::WriteDone);
    assert!(matches!(state, ConnState::AwaitingRequestLine));
    assert!(matches!(action, ConnAction::ReadLine));

    // third request closes
    let (state, _req) = feed_request(
        state,
        &["GET / HTTP/1.1\r\n", "Connection: close\r\n", "\r\n"],
        None,
    );
    let (state, action) = step(state, ConnEvent::HandlerDone { response: HttpResponse::new() });
    assert!(matches!(action, ConnAction::WriteResponse { keep_alive: false, .. }));
    let (state, action) = step(state, ConnEvent::WriteDone);
    assert!(matches!(state, ConnState::Closed));
    assert!(matches!(action, ConnAction::CloseStream));
}

#[test]
fn config_toggle_closes_only_between_exchanges() {
    let off = Args { use_keep_alive: false };
    let on = Args { use_keep_alive: true };
    assert!(config_forces_close(&off, &ConnState::AwaitingRequestLine, &ConnAction::ReadLine));
    assert!(!config_forces_close(&on, &ConnState::AwaitingRequestLine, &ConnAction::ReadLine));
    // a read in the middle of a request is never cut short
    let (state, action) = step(ConnState::AwaitingRequestLine, line("GET / HTTP/1.1\r\n"));
    assert!(!config_forces_close(&off, &state, &action));
}

#[test]
fn response_headers_are_injected_over_handler_headers() {
    let (state, _req) = feed_request(
        ConnState::AwaitingRequestLine,
        &["GET /json HTTP/1.1\r\n", "Connection: close\r\n", "\r\n"],
        None,
    );
    let mut response = HttpResponse::new();
    response.add_header(http_core::headers::HttpHeaderName::ContentType, "application/json");
    response.body = String::from("{\"hello\":\"world\"}");
    let (_, action) = step(state, ConnEvent::HandlerDone { response });
    match action {
        ConnAction::WriteResponse { text, .. } => {
            assert!(text.contains("Content-Type: application/json\r\n"));
            assert!(text.contains("Content-Length: 17\r\n"));
            assert!(text.contains("Connection: close\r\n"));
            assert!(text.contains("\r\n\r\n{\"hello\":\"world\"}"));
        }
        other => panic!("expected WriteResponse, got {:?}", other),
    }
}

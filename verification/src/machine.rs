//! The per-connection state machine. It owns no socket: the surrounding
//! program reads lines and bytes, runs handlers, and writes, and hands the
//! outcome of each of those steps back in as an event. Every decision --
//! what to read next, how to frame the body, whether to keep the
//! connection alive, what bytes to send -- is made here.

use vstd::prelude::*;

use crate::error::HttpError;
use crate::headers::{
    ConnectionHeaderValue, ConnectionView, HeaderValueView, HttpHeaderName, HttpHeaderValue,
    HttpHeaders, name_key, spec_add, spec_content_length, spec_lookup, spec_parse_name,
    spec_parse_value, spec_parse_host, spec_parse_connection, spec_content_length_val,
};
use crate::method::HttpMethod;
use crate::method::spec_parse_method;
use crate::request::{FirstRowView, HttpFirstRow, HttpRequest, RequestView, parse_header_line};
use crate::response::{
    HttpResponse, ResponseView, spec_encode_response, spec_finalized_headers,
};
use crate::text::{spec_find, spec_tokens, spec_trim, str_eq};

verus! {

/// Whether the connection stays open after this exchange: yes unless the
/// request's first Connection value resolved to `close` (absence of the
/// header defaults to keep-alive, as HTTP/1.1 does; any other value is
/// treated as keep-alive, since no upgrade protocol is spoken here).
pub open spec fn spec_keep_alive(h: Seq<(Seq<char>, Seq<HeaderValueView>)>) -> bool {
    match spec_lookup(h, "Connection"@) {
        None => true,
        Some(vs) => if vs.len() == 0 {
            false
        } else {
            match vs[0] {
                HeaderValueView::Connection(ConnectionView::Close) => false,
                _ => true,
            }
        },
    }
}

pub fn should_keep_alive(headers: &HttpHeaders) -> (r: bool)
    ensures
        r == spec_keep_alive(headers@),
{
    let name = HttpHeaderName::Connection;
    match headers.get(&name) {
        None => true,
        Some(vs) => {
            if vs.len() == 0 {
                false
            } else {
                proof {
                    assert(crate::headers::vals_view(vs@)[0] == vs@[0]@);
                }
                match &vs[0] {
                    HttpHeaderValue::Connection(cv) => match cv {
                        ConnectionHeaderValue::Close => false,
                        _ => true,
                    },
                    _ => true,
                }
            }
        },
    }
}

// ---- states, events, actions ----

/// Where one connection stands.
#[derive(Debug)]
pub enum ConnState {
    /// Nothing of the next request has arrived yet.
    AwaitingRequestLine,
    /// The request line is in; header lines are arriving.
    ReadingHeaders { first: HttpFirstRow, headers: HttpHeaders },
    /// Headers are done; `needed` body bytes are owed.
    ReadingBody { first: HttpFirstRow, headers: HttpHeaders, needed: usize },
    /// A request went out to a handler.
    Dispatching { keep_alive: bool },
    /// The serialized response is being written.
    Writing { keep_alive: bool },
    /// The exchange is over and the stream is to be closed.
    Closed,
    /// The connection was abandoned.
    Failed { error: HttpError },
}

/// What the surrounding program reports back.
#[derive(Debug)]
pub enum ConnEvent {
    /// One line was read, terminator included.
    Line { text: String },
    /// The stream ended where a line was asked for.
    EndOfStream,
    /// The bytes read toward the body: all that were asked for, or
    /// fewer if the stream ended first.
    BodyBytes { bytes: Vec<u8> },
    /// The dispatched handler returned this response.
    HandlerDone { response: HttpResponse },
    /// The response bytes were written and flushed.
    WriteDone,
    /// No complete request arrived within the read window.
    TimedOut,
    /// A socket read or write failed.
    IoFailed,
}

/// What the surrounding program is to do next.
#[derive(Debug)]
pub enum ConnAction {
    /// Read one line and report `Line` or `EndOfStream`.
    ReadLine,
    /// Read `count` bytes and report `BodyBytes`.
    ReadBody { count: usize },
    /// Run the handler for this request and report `HandlerDone`.
    Dispatch { request: HttpRequest },
    /// Write these bytes, flush, and report `WriteDone`; then the
    /// connection closes unless `keep_alive`.
    WriteResponse { text: String, keep_alive: bool },
    /// Shut the stream down; the connection is finished.
    CloseStream,
    /// Abandon the connection and log `error`.
    Abort { error: HttpError },
}

/// Model of a state.
pub enum StateView {
    AwaitingRequestLine,
    ReadingHeaders { first: FirstRowView, headers: Seq<(Seq<char>, Seq<HeaderValueView>)> },
    ReadingBody {
        first: FirstRowView,
        headers: Seq<(Seq<char>, Seq<HeaderValueView>)>,
        needed: int,
    },
    Dispatching { keep_alive: bool },
    Writing { keep_alive: bool },
    Closed,
    Failed { error: HttpError },
}

/// Model of an event.
pub enum EventView {
    Line { text: Seq<char> },
    EndOfStream,
    BodyBytes { bytes: Seq<u8> },
    HandlerDone { response: ResponseView },
    WriteDone,
    TimedOut,
    IoFailed,
}

/// Model of an action.
pub enum ActionView {
    ReadLine,
    ReadBody { count: int },
    Dispatch { request: RequestView },
    WriteResponse { text: Seq<char>, keep_alive: bool },
    CloseStream,
    Abort { error: HttpError },
}

impl View for ConnState {
    type V = StateView;

    open spec fn view(&self) -> StateView {
        match self {
            ConnState::AwaitingRequestLine => StateView::AwaitingRequestLine,
            ConnState::ReadingHeaders { first, headers } => StateView::ReadingHeaders {
                first: first@,
                headers: headers@,
            },
            ConnState::ReadingBody { first, headers, needed } => StateView::ReadingBody {
                first: first@,
                headers: headers@,
                needed: *needed as int,
            },
            ConnState::Dispatching { keep_alive } => StateView::Dispatching {
                keep_alive: *keep_alive,
            },
            ConnState::Writing { keep_alive } => StateView::Writing { keep_alive: *keep_alive },
            ConnState::Closed => StateView::Closed,
            ConnState::Failed { error } => StateView::Failed { error: *error },
        }
    }
}

impl View for ConnEvent {
    type V = EventView;

    open spec fn view(&self) -> EventView {
        match self {
            ConnEvent::Line { text } => EventView::Line { text: text@ },
            ConnEvent::EndOfStream => EventView::EndOfStream,
            ConnEvent::BodyBytes { bytes } => EventView::BodyBytes { bytes: bytes@ },
            ConnEvent::HandlerDone { response } => EventView::HandlerDone { response: response@ },
            ConnEvent::WriteDone => EventView::WriteDone,
            ConnEvent::TimedOut => EventView::TimedOut,
            ConnEvent::IoFailed => EventView::IoFailed,
        }
    }
}

impl View for ConnAction {
    type V = ActionView;

    open spec fn view(&self) -> ActionView {
        match self {
            ConnAction::ReadLine => ActionView::ReadLine,
            ConnAction::ReadBody { count } => ActionView::ReadBody { count: *count as int },
            ConnAction::Dispatch { request } => ActionView::Dispatch { request: request@ },
            ConnAction::WriteResponse { text, keep_alive } => ActionView::WriteResponse {
                text: text@,
                keep_alive: *keep_alive,
            },
            ConnAction::CloseStream => ActionView::CloseStream,
            ConnAction::Abort { error } => ActionView::Abort { error: *error },
        }
    }
}

// ---- the transition relation ----

/// Abandoning the connection with `error`.
pub open spec fn spec_abort(error: HttpError) -> (StateView, ActionView) {
    (StateView::Failed { error }, ActionView::Abort { error })
}

/// How a header line's raw key types its raw value: by the canonical form
/// of the key.
pub open spec fn spec_value_for(key: Seq<char>, raw: Seq<char>) -> HeaderValueView {
    if name_key(key) == name_key("Content-Length"@) {
        HeaderValueView::ContentLength(spec_content_length_val(raw))
    } else if name_key(key) == name_key("Content-Type"@) {
        HeaderValueView::ContentType(raw)
    } else if name_key(key) == name_key("Host"@) {
        spec_parse_host(raw)
    } else if name_key(key) == name_key("Connection"@) {
        HeaderValueView::Connection(spec_parse_connection(raw))
    } else {
        HeaderValueView::Raw(raw)
    }
}

/// The request a finished header section yields: method normalized, path
/// and version as they appeared, and the given body.
pub open spec fn spec_request_of(
    first: FirstRowView,
    headers: Seq<(Seq<char>, Seq<HeaderValueView>)>,
    body: Seq<u8>,
) -> RequestView {
    RequestView {
        method: spec_parse_method(first.method),
        path: first.resource,
        http_version: first.protocol,
        headers,
        body: Some(body),
    }
}

/// Body length owed once the headers are complete: the first
/// Content-Length value, or 0 when there is none.
pub open spec fn spec_body_needed(headers: Seq<(Seq<char>, Seq<HeaderValueView>)>) -> int {
    match spec_content_length(headers) {
        Some(n) => n,
        None => 0,
    }
}

/// Where a finished header section leads: on to the body when one is
/// owed, else straight to dispatch with an empty body.
pub open spec fn spec_headers_done(
    first: FirstRowView,
    headers: Seq<(Seq<char>, Seq<HeaderValueView>)>,
) -> (StateView, ActionView) {
    let cl = spec_body_needed(headers);
    if cl > 0 {
        (
            StateView::ReadingBody { first, headers, needed: cl },
            ActionView::ReadBody { count: cl },
        )
    } else {
        (
            StateView::Dispatching { keep_alive: spec_keep_alive(headers) },
            ActionView::Dispatch { request: spec_request_of(first, headers, Seq::empty()) },
        )
    }
}

/// The whole transition relation of one connection, exactly as the
/// executable `step` performs it. A timeout or socket failure is fatal in
/// any state; an event that the state does not expect is treated as a
/// socket failure. A header line without a colon abandons the whole
/// connection -- the deliberate policy here, rather than skipping the
/// line and serving the request anyway.
pub open spec fn spec_step(s: StateView, e: EventView) -> (StateView, ActionView) {
    match e {
        EventView::TimedOut => spec_abort(HttpError::ConnectionTimeout),
        EventView::IoFailed => spec_abort(HttpError::IoError),
        _ => match s {
            StateView::AwaitingRequestLine => match e {
                EventView::Line { text } => {
                    if spec_tokens(text).len() == 3 {
                        (
                            StateView::ReadingHeaders {
                                first: FirstRowView {
                                    method: spec_tokens(text)[0],
                                    resource: spec_tokens(text)[1],
                                    protocol: spec_tokens(text)[2],
                                },
                                headers: Seq::empty(),
                            },
                            ActionView::ReadLine,
                        )
                    } else {
                        spec_abort(HttpError::MalformedRequestLine)
                    }
                },
                EventView::EndOfStream => spec_abort(HttpError::MalformedRequestLine),
                _ => spec_abort(HttpError::IoError),
            },
            StateView::ReadingHeaders { first, headers } => match e {
                EventView::Line { text } => {
                    if text == "\r\n"@ {
                        spec_headers_done(first, headers)
                    } else {
                        match spec_find(text, ':') {
                            Some(i) => {
                                let key = spec_trim(text.take(i));
                                let raw = spec_trim(text.subrange(i + 1, text.len() as int));
                                (
                                    StateView::ReadingHeaders {
                                        first,
                                        headers: spec_add(
                                            headers,
                                            spec_parse_name(key),
                                            spec_value_for(key, raw),
                                        ),
                                    },
                                    ActionView::ReadLine,
                                )
                            },
                            None => spec_abort(HttpError::MalformedHeaderLine),
                        }
                    }
                },
                EventView::EndOfStream => spec_headers_done(first, headers),
                _ => spec_abort(HttpError::IoError),
            },
            StateView::ReadingBody { first, headers, needed } => match e {
                EventView::BodyBytes { bytes } => {
                    if bytes.len() == needed {
                        (
                            StateView::Dispatching { keep_alive: spec_keep_alive(headers) },
                            ActionView::Dispatch {
                                request: spec_request_of(first, headers, bytes),
                            },
                        )
                    } else {
                        spec_abort(HttpError::TruncatedBody)
                    }
                },
                EventView::EndOfStream => spec_abort(HttpError::TruncatedBody),
                _ => spec_abort(HttpError::IoError),
            },
            StateView::Dispatching { keep_alive } => match e {
                EventView::HandlerDone { response } => {
                    let fin = ResponseView {
                        status_code: response.status_code,
                        headers: spec_finalized_headers(response, keep_alive),
                        body: response.body,
                    };
                    (
                        StateView::Writing { keep_alive },
                        ActionView::WriteResponse {
                            text: spec_encode_response(fin),
                            keep_alive,
                        },
                    )
                },
                _ => spec_abort(HttpError::IoError),
            },
            StateView::Writing { keep_alive } => match e {
                EventView::WriteDone => {
                    if keep_alive {
                        (StateView::AwaitingRequestLine, ActionView::ReadLine)
                    } else {
                        (StateView::Closed, ActionView::CloseStream)
                    }
                },
                _ => spec_abort(HttpError::IoError),
            },
            StateView::Closed => (StateView::Closed, ActionView::CloseStream),
            StateView::Failed { error } => (StateView::Failed { error }, ActionView::Abort {
                error,
            }),
        },
    }
}

impl ConnState {
    /// The header tables a state carries are well-formed.
    pub open spec fn wf(&self) -> bool {
        match self {
            ConnState::ReadingHeaders { headers, .. } => headers.wf(),
            ConnState::ReadingBody { headers, .. } => headers.wf(),
            _ => true,
        }
    }
}

impl ConnEvent {
    /// The response a handler hands back carries a well-formed table.
    pub open spec fn wf(&self) -> bool {
        match self {
            ConnEvent::HandlerDone { response } => response.wf(),
            _ => true,
        }
    }
}

/// Performs one transition: exactly `spec_step` on the models of the
/// state and the event.
pub fn step(s: ConnState, e: ConnEvent) -> (r: (ConnState, ConnAction))
    requires
        s.wf(),
        e.wf(),
    ensures
        (r.0@, r.1@) == spec_step(s@, e@),
        r.0.wf(),
{
    match e {
        ConnEvent::TimedOut => abort(HttpError::ConnectionTimeout),
        ConnEvent::IoFailed => abort(HttpError::IoError),
        e => match s {
            ConnState::AwaitingRequestLine => match e {
                ConnEvent::Line { text } => match HttpFirstRow::parse(text.as_str()) {
                    Ok(first) => (
                        ConnState::ReadingHeaders { first, headers: HttpHeaders::new() },
                        ConnAction::ReadLine,
                    ),
                    Err(_) => abort(HttpError::MalformedRequestLine),
                },
                ConnEvent::EndOfStream => abort(HttpError::MalformedRequestLine),
                _ => abort(HttpError::IoError),
            },
            ConnState::ReadingHeaders { first, mut headers } => match e {
                ConnEvent::Line { text } => {
                    if str_eq(text.as_str(), "\r\n") {
                        headers_done(first, headers)
                    } else {
                        match parse_header_line(text.as_str()) {
                            Ok((key, raw)) => {
                                let name = HttpHeaderName::parse(key.as_str());
                                proof {
                                    assert(spec_parse_value(&name, raw@) == spec_value_for(
                                        key@,
                                        raw@,
                                    ));
                                }
                                headers.add(name, raw.as_str());
                                (
                                    ConnState::ReadingHeaders { first, headers },
                                    ConnAction::ReadLine,
                                )
                            },
                            Err(_) => abort(HttpError::MalformedHeaderLine),
                        }
                    }
                },
                ConnEvent::EndOfStream => headers_done(first, headers),
                _ => abort(HttpError::IoError),
            },
            ConnState::ReadingBody { first, headers, needed } => match e {
                ConnEvent::BodyBytes { bytes } => {
                    if bytes.len() == needed {
                        let keep_alive = should_keep_alive(&headers);
                        let request = build_request(first, headers, bytes);
                        (
                            ConnState::Dispatching { keep_alive },
                            ConnAction::Dispatch { request },
                        )
                    } else {
                        abort(HttpError::TruncatedBody)
                    }
                },
                ConnEvent::EndOfStream => abort(HttpError::TruncatedBody),
                _ => abort(HttpError::IoError),
            },
            ConnState::Dispatching { keep_alive } => match e {
                ConnEvent::HandlerDone { response } => {
                    let mut response = response;
                    response.finalize(keep_alive);
                    let text = response.encode();
                    (
                        ConnState::Writing { keep_alive },
                        ConnAction::WriteResponse { text, keep_alive },
                    )
                },
                _ => abort(HttpError::IoError),
            },
            ConnState::Writing { keep_alive } => match e {
                ConnEvent::WriteDone => {
                    if keep_alive {
                        (ConnState::AwaitingRequestLine, ConnAction::ReadLine)
                    } else {
                        (ConnState::Closed, ConnAction::CloseStream)
                    }
                },
                _ => abort(HttpError::IoError),
            },
            ConnState::Closed => (ConnState::Closed, ConnAction::CloseStream),
            ConnState::Failed { error } => (
                ConnState::Failed { error },
                ConnAction::Abort { error },
            ),
        },
    }
}

fn abort(error: HttpError) -> (r: (ConnState, ConnAction))
    ensures
        (r.0@, r.1@) == spec_abort(error),
        r.0.wf(),
{
    (ConnState::Failed { error }, ConnAction::Abort { error })
}

fn build_request(first: HttpFirstRow, headers: HttpHeaders, body: Vec<u8>) -> (r: HttpRequest)
    ensures
        r@ == spec_request_of(first@, headers@, body@),
{
    let method = HttpMethod::parse(first.method.as_str());
    HttpRequest {
        method,
        path: first.resource,
        http_version: first.protocol,
        headers,
        body: Some(body),
    }
}

fn headers_done(first: HttpFirstRow, headers: HttpHeaders) -> (r: (ConnState, ConnAction))
    requires
        headers.wf(),
    ensures
        (r.0@, r.1@) == spec_headers_done(first@, headers@),
        r.0.wf(),
{
    let cl = match headers.content_length() {
        Some(n) => n,
        None => 0,
    };
    if cl > 0 {
        (
            ConnState::ReadingBody { first, headers, needed: cl },
            ConnAction::ReadBody { count: cl },
        )
    } else {
        let keep_alive = should_keep_alive(&headers);
        let body: Vec<u8> = Vec::new();
        proof {
            assert(body@ =~= Seq::<u8>::empty());
        }
        let request = build_request(first, headers, body);
        (ConnState::Dispatching { keep_alive }, ConnAction::Dispatch { request })
    }
}

/// Whether the startup keep-alive toggle overrides the protocol: with the
/// toggle off, a connection whose machine has looped back to await
/// another request (one exchange is complete) is closed anyway. Mid-
/// request reads and everything else are untouched.
pub fn config_forces_close(
    config: &crate::server::Args,
    state: &ConnState,
    action: &ConnAction,
) -> (r: bool)
    ensures
        r == (!config.use_keep_alive && state is AwaitingRequestLine && action is ReadLine),
{
    if config.use_keep_alive {
        return false;
    }
    match (state, action) {
        (ConnState::AwaitingRequestLine, ConnAction::ReadLine) => true,
        _ => false,
    }
}

// ---- laws of the machine ----

/// Decoding a well-formed request line `"<METHOD> <PATH> <VERSION>\r\n"`
/// (three whitespace-free tokens, single spaces between) yields a request
/// whose path and version are exactly the second and third tokens,
/// case preserved, and whose method is the first token normalized to the
/// closed method enumeration.
pub proof fn lemma_request_line_decoded(
    m: Seq<char>,
    p: Seq<char>,
    v: Seq<char>,
    headers: Seq<(Seq<char>, Seq<HeaderValueView>)>,
    body: Seq<u8>,
)
    requires
        m.len() > 0,
        p.len() > 0,
        v.len() > 0,
        forall|i: int| 0 <= i < m.len() ==> !crate::text::is_ws_char(m[i]),
        forall|i: int| 0 <= i < p.len() ==> !crate::text::is_ws_char(p[i]),
        forall|i: int| 0 <= i < v.len() ==> !crate::text::is_ws_char(v[i]),
    ensures
        spec_step(
            StateView::AwaitingRequestLine,
            EventView::Line { text: m + " "@ + p + " "@ + v + "\r\n"@ },
        ) == (
            StateView::ReadingHeaders {
                first: FirstRowView { method: m, resource: p, protocol: v },
                headers: Seq::<(Seq<char>, Seq<HeaderValueView>)>::empty(),
            },
            ActionView::ReadLine,
        ),
        spec_request_of(FirstRowView { method: m, resource: p, protocol: v }, headers, body)
            == (RequestView {
            method: spec_parse_method(m),
            path: p,
            http_version: v,
            headers,
            body: Some(body),
        }),
{
    crate::text::lemma_request_line_tokens(m, p, v);
}

/// Re-rendering a header table is semantically stable for the values the
/// table understands natively: re-parsing the rendered text of a
/// Content-Length entry, or of a Host entry that kept its port and whose
/// host holds no colon, under its own name yields the value back.
pub proof fn lemma_table_render_stable(
    h: Seq<(Seq<char>, Seq<HeaderValueView>)>,
    i: int,
    j: int,
)
    requires
        0 <= i < h.len(),
        0 <= j < h[i].1.len(),
    ensures
        (h[i].1[j] matches HeaderValueView::ContentLength(n) && 0 <= n <= usize::MAX
            && name_key(h[i].0) == name_key("Content-Length"@)) ==> spec_value_for(
            h[i].0,
            crate::headers::spec_render_value(h[i].1[j]),
        ) == h[i].1[j],
        (h[i].1[j] matches HeaderValueView::Host(hh, Some(p)) && (forall|k: int|
            0 <= k < hh.len() ==> hh[k] != ':') && name_key(h[i].0) == name_key("Host"@))
            ==> spec_value_for(h[i].0, crate::headers::spec_render_value(h[i].1[j])) == h[i].1[j],
{
    match h[i].1[j] {
        HeaderValueView::ContentLength(n) => {
            if 0 <= n <= usize::MAX {
                crate::headers::lemma_content_length_round_trip(n);
            }
        },
        HeaderValueView::Host(hh, p) => {
            if p is Some && (forall|k: int| 0 <= k < hh.len() ==> hh[k] != ':') {
                crate::headers::lemma_host_round_trip(hh, p->0);
                reveal_strlit("Host");
                reveal_strlit("Content-Length");
                reveal_strlit("Content-Type");
                assert(name_key("Host"@).len() != name_key("Content-Length"@).len());
                assert(name_key("Host"@).len() != name_key("Content-Type"@).len());
            }
        },
        _ => {},
    }
}

/// A Content-Length of 0, or none at all, dispatches with an empty body
/// and asks for no body bytes; a Content-Length of N > 0 with fewer than
/// N bytes delivered before the stream ended abandons the connection with
/// `TruncatedBody`.
pub proof fn lemma_body_framing(
    first: FirstRowView,
    headers: Seq<(Seq<char>, Seq<HeaderValueView>)>,
    needed: int,
    bytes: Seq<u8>,
)
    ensures
        (spec_content_length(headers) is None || spec_content_length(headers) == Some(0int))
            ==> spec_headers_done(first, headers) == (
            StateView::Dispatching { keep_alive: spec_keep_alive(headers) },
            ActionView::Dispatch { request: spec_request_of(first, headers, Seq::empty()) },
        ),
        bytes.len() < needed ==> spec_step(
            StateView::ReadingBody { first, headers, needed },
            EventView::BodyBytes { bytes },
        ) == spec_abort(HttpError::TruncatedBody),
        spec_step(StateView::ReadingBody { first, headers, needed }, EventView::EndOfStream)
            == spec_abort(HttpError::TruncatedBody),
{
}

/// The keep-alive policy, end to end. A missing Connection header
/// defaults to keep-alive; an explicit `close` closes, an explicit
/// `keep-alive` keeps the stream. Under close, the machine emits exactly
/// one response write and then closes the stream; under keep-alive it
/// loops back to await a second request on the same stream, without any
/// new accept.
pub proof fn lemma_keep_alive_policy(
    h: Seq<(Seq<char>, Seq<HeaderValueView>)>,
    response: ResponseView,
)
    ensures
        spec_lookup(h, "Connection"@) is None ==> spec_keep_alive(h),
        (spec_lookup(h, "Connection"@) matches Some(vs) && vs.len() > 0 && vs[0]
            == HeaderValueView::Connection(ConnectionView::Close)) ==> !spec_keep_alive(h),
        (spec_lookup(h, "Connection"@) matches Some(vs) && vs.len() > 0 && vs[0]
            == HeaderValueView::Connection(ConnectionView::KeepAlive)) ==> spec_keep_alive(h),
        spec_step(
            StateView::Dispatching { keep_alive: false },
            EventView::HandlerDone { response },
        ) == (
            StateView::Writing { keep_alive: false },
            ActionView::WriteResponse {
                text: spec_encode_response(
                    ResponseView {
                        status_code: response.status_code,
                        headers: spec_finalized_headers(response, false),
                        body: response.body,
                    },
                ),
                keep_alive: false,
            },
        ),
        spec_step(StateView::Writing { keep_alive: false }, EventView::WriteDone) == (
            StateView::Closed,
            ActionView::CloseStream,
        ),
        spec_step(
            StateView::Dispatching { keep_alive: true },
            EventView::HandlerDone { response },
        ) == (
            StateView::Writing { keep_alive: true },
            ActionView::WriteResponse {
                text: spec_encode_response(
                    ResponseView {
                        status_code: response.status_code,
                        headers: spec_finalized_headers(response, true),
                        body: response.body,
                    },
                ),
                keep_alive: true,
            },
        ),
        spec_step(StateView::Writing { keep_alive: true }, EventView::WriteDone) == (
            StateView::AwaitingRequestLine,
            ActionView::ReadLine,
        ),
{
}

} // verus!

//! The response under construction and its wire image: status line, header
//! lines, a blank line, then the body.

use vstd::prelude::*;
use vstd::utf8::encode_utf8;

use crate::headers::{
    ConnectionHeaderValue, ConnectionView, HeaderValueView, HttpHeaderName, HttpHeaderValue,
    HttpHeaders, spec_render_headers, spec_set,
};
use crate::text::{spec_dec, usize_to_string};

verus! {

/// A response: status code (200 until someone says otherwise), header
/// table, and a textual body. Handlers mutate one; the connection machine
/// then injects Content-Length and Connection and serializes it.
#[derive(Debug)]
pub struct HttpResponse {
    pub status_code: usize,
    pub headers: HttpHeaders,
    pub body: String,
}

/// Mathematical model of a response.
pub struct ResponseView {
    pub status_code: int,
    pub headers: Seq<(Seq<char>, Seq<HeaderValueView>)>,
    pub body: Seq<char>,
}

impl View for HttpResponse {
    type V = ResponseView;

    open spec fn view(&self) -> ResponseView {
        ResponseView { status_code: self.status_code as int, headers: self.headers@, body: self.body@ }
    }
}

/// Byte length of a body: the length of its UTF-8 image, which is what
/// goes on the wire and what Content-Length must count. The length is
/// taken through `usize`, as `str::len` models it.
pub open spec fn spec_body_len(body: Seq<char>) -> int {
    (encode_utf8(body).len() as usize) as int
}

/// The full wire image of a response.
pub open spec fn spec_encode_response(r: ResponseView) -> Seq<char> {
    "HTTP/1.1 "@ + spec_dec(r.status_code) + "\r\n"@ + spec_render_headers(r.headers) + "\r\n"@
        + r.body
}

/// The headers after the machine injects Content-Length (the body's byte
/// length) and Connection (the computed policy) into a response.
pub open spec fn spec_finalized_headers(r: ResponseView, keep_alive: bool) -> Seq<
    (Seq<char>, Seq<HeaderValueView>),
> {
    spec_set(
        spec_set(r.headers, "Content-Length"@, HeaderValueView::ContentLength(spec_body_len(r.body))),
        "Connection"@,
        HeaderValueView::Connection(
            if keep_alive {
                ConnectionView::KeepAlive
            } else {
                ConnectionView::Close
            },
        ),
    )
}

impl HttpResponse {
    pub open spec fn wf(&self) -> bool {
        self.headers.wf()
    }

    /// A fresh response: status 200, no headers, empty body.
    pub fn new() -> (r: HttpResponse)
        ensures
            r@.status_code == 200,
            r@.headers =~= Seq::<(Seq<char>, Seq<HeaderValueView>)>::empty(),
            r@.body =~= Seq::<char>::empty(),
            r.wf(),
    {
        HttpResponse { status_code: 200, headers: HttpHeaders::new(), body: String::new() }
    }

    /// Records one more header, typed under `header`.
    pub fn add_header(&mut self, header: HttpHeaderName, value: &str)
        requires
            old(self).wf(),
        ensures
            final(self).wf(),
            final(self)@.status_code == old(self)@.status_code,
            final(self)@.body == old(self)@.body,
            final(self)@.headers == crate::headers::spec_add(
                old(self)@.headers,
                header@,
                crate::headers::spec_parse_value(&header, value@),
            ),
    {
        self.headers.add(header, value);
    }

    /// The body's byte length: what Content-Length must declare.
    pub fn content_length(&self) -> (r: usize)
        ensures
            r == spec_body_len(self@.body),
    {
        self.body.as_str().len()
    }

    /// Injects Content-Length and Connection, overwriting anything a
    /// handler may have put there, as the machine does before serializing.
    pub fn finalize(&mut self, keep_alive: bool)
        requires
            old(self).wf(),
        ensures
            final(self).wf(),
            final(self)@.status_code == old(self)@.status_code,
            final(self)@.body == old(self)@.body,
            final(self)@.headers == spec_finalized_headers(old(self)@, keep_alive),
    {
        let n = self.content_length();
        self.headers.set(HttpHeaderName::ContentLength, HttpHeaderValue::ContentLength(n));
        self.headers.set(
            HttpHeaderName::Connection,
            HttpHeaderValue::Connection(
                if keep_alive {
                    ConnectionHeaderValue::KeepAlive
                } else {
                    ConnectionHeaderValue::Close
                },
            ),
        );
    }

    /// Serializes the response exactly as given: status line, each header
    /// as `<name>: <value>\r\n`, a blank line, then the body. No
    /// consistency between the headers and the body is checked here.
    pub fn encode(&self) -> (r: String)
        ensures
            r@ == spec_encode_response(self@),
    {
        let mut out = String::from_str("HTTP/1.1 ");
        let status = usize_to_string(self.status_code);
        out.append(status.as_str());
        out.append("\r\n");
        let hdrs = self.headers.render();
        out.append(hdrs.as_str());
        out.append("\r\n");
        out.append(self.body.as_str());
        out
    }
}

} // verus!

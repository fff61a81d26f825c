//! The request method: the standard verbs, with a fallback that keeps the
//! original spelling of anything unrecognized.

use vstd::prelude::*;

use crate::text::{lower_seq, str_eq_ignore_case};

verus! {

#[derive(Debug)]
pub enum HttpMethod {
    GET,
    HEAD,
    POST,
    PUT,
    DELETE,
    CONNECT,
    OPTIONS,
    TRACE,
    PATCH,
    Custom(String),
}

/// Mathematical model of a method: the known verbs, or the raw token.
pub enum MethodView {
    GET,
    HEAD,
    POST,
    PUT,
    DELETE,
    CONNECT,
    OPTIONS,
    TRACE,
    PATCH,
    Custom(Seq<char>),
}

impl View for HttpMethod {
    type V = MethodView;

    open spec fn view(&self) -> MethodView {
        match self {
            HttpMethod::GET => MethodView::GET,
            HttpMethod::HEAD => MethodView::HEAD,
            HttpMethod::POST => MethodView::POST,
            HttpMethod::PUT => MethodView::PUT,
            HttpMethod::DELETE => MethodView::DELETE,
            HttpMethod::CONNECT => MethodView::CONNECT,
            HttpMethod::OPTIONS => MethodView::OPTIONS,
            HttpMethod::TRACE => MethodView::TRACE,
            HttpMethod::PATCH => MethodView::PATCH,
            HttpMethod::Custom(s) => MethodView::Custom(s@),
        }
    }
}

/// Which method a request-line token names, matched without regard to case;
/// an unknown token is kept as it was spelled.
pub open spec fn spec_parse_method(s: Seq<char>) -> MethodView {
    if lower_seq(s) == lower_seq("GET"@) {
        MethodView::GET
    } else if lower_seq(s) == lower_seq("HEAD"@) {
        MethodView::HEAD
    } else if lower_seq(s) == lower_seq("POST"@) {
        MethodView::POST
    } else if lower_seq(s) == lower_seq("PUT"@) {
        MethodView::PUT
    } else if lower_seq(s) == lower_seq("DELETE"@) {
        MethodView::DELETE
    } else if lower_seq(s) == lower_seq("CONNECT"@) {
        MethodView::CONNECT
    } else if lower_seq(s) == lower_seq("OPTIONS"@) {
        MethodView::OPTIONS
    } else if lower_seq(s) == lower_seq("TRACE"@) {
        MethodView::TRACE
    } else if lower_seq(s) == lower_seq("PATCH"@) {
        MethodView::PATCH
    } else {
        MethodView::Custom(s)
    }
}

impl HttpMethod {
    pub fn parse(s: &str) -> (r: HttpMethod)
        ensures
            r@ == spec_parse_method(s@),
    {
        if str_eq_ignore_case(s, "GET") {
            HttpMethod::GET
        } else if str_eq_ignore_case(s, "HEAD") {
            HttpMethod::HEAD
        } else if str_eq_ignore_case(s, "POST") {
            HttpMethod::POST
        } else if str_eq_ignore_case(s, "PUT") {
            HttpMethod::PUT
        } else if str_eq_ignore_case(s, "DELETE") {
            HttpMethod::DELETE
        } else if str_eq_ignore_case(s, "CONNECT") {
            HttpMethod::CONNECT
        } else if str_eq_ignore_case(s, "OPTIONS") {
            HttpMethod::OPTIONS
        } else if str_eq_ignore_case(s, "TRACE") {
            HttpMethod::TRACE
        } else if str_eq_ignore_case(s, "PATCH") {
            HttpMethod::PATCH
        } else {
            HttpMethod::Custom(String::from_str(s))
        }
    }
}

} // verus!

//! The decoded request: the request line's three tokens, the typed header
//! table, and the body.

use vstd::prelude::*;

use crate::error::HttpError;
use crate::headers::{HeaderValueView, HttpHeaders};
use crate::method::{HttpMethod, MethodView};
use crate::text::{
    find_char, lemma_spec_find, spec_find, spec_tokens, spec_trim, split_ws, trim,
};

verus! {

/// The three tokens of a request line, as they appeared.
#[derive(Debug)]
pub struct HttpFirstRow {
    pub method: String,
    pub protocol: String,
    pub resource: String,
}

/// Mathematical model of a request line.
pub struct FirstRowView {
    pub method: Seq<char>,
    pub protocol: Seq<char>,
    pub resource: Seq<char>,
}

impl View for HttpFirstRow {
    type V = FirstRowView;

    open spec fn view(&self) -> FirstRowView {
        FirstRowView { method: self.method@, protocol: self.protocol@, resource: self.resource@ }
    }
}

impl HttpFirstRow {
    /// Splits a request line into `<METHOD> <RESOURCE> <PROTOCOL>`. The
    /// line is well-formed exactly when it holds three
    /// whitespace-separated tokens.
    pub fn parse(s: &str) -> (r: Result<HttpFirstRow, HttpError>)
        ensures
            r is Ok <==> spec_tokens(s@).len() == 3,
            r matches Ok(row) ==> row@ == (FirstRowView {
                method: spec_tokens(s@)[0],
                resource: spec_tokens(s@)[1],
                protocol: spec_tokens(s@)[2],
            }),
            r matches Err(e) ==> e == HttpError::MalformedRequestLine,
    {
        let mut parts = split_ws(s);
        if parts.len() != 3 {
            return Err(HttpError::MalformedRequestLine);
        }
        let protocol = parts.pop().unwrap();
        let resource = parts.pop().unwrap();
        let method = parts.pop().unwrap();
        proof {
            assert(protocol@ == spec_tokens(s@)[2]);
            assert(resource@ == spec_tokens(s@)[1]);
            assert(method@ == spec_tokens(s@)[0]);
        }
        Ok(HttpFirstRow { method, protocol, resource })
    }
}

/// Splits a header line at its first colon into a key and a value, both
/// trimmed of surrounding whitespace. A line with no colon is malformed.
pub fn parse_header_line(line: &str) -> (r: Result<(String, String), HttpError>)
    ensures
        r is Ok <==> spec_find(line@, ':') is Some,
        r matches Ok(kv) ==> (spec_find(line@, ':') matches Some(i) && kv.0@ == spec_trim(
            line@.take(i),
        ) && kv.1@ == spec_trim(line@.subrange(i + 1, line@.len() as int))),
        r matches Err(e) ==> e == HttpError::MalformedHeaderLine,
{
    proof {
        lemma_spec_find(line@, ':');
    }
    match find_char(line, ':') {
        None => {
            proof {
                assert(spec_find(line@, ':') is None);
            }
            Err(HttpError::MalformedHeaderLine)
        },
        Some(i) => {
            proof {
                assert(spec_find(line@, ':') == Some(i as int));
            }
            let len = line.unicode_len();
            let key_part = line.substring_char(0, i);
            let val_part = line.substring_char(i + 1, len);
            let key = trim(key_part);
            let value = trim(val_part);
            proof {
                assert(line@.subrange(0, i as int) =~= line@.take(i as int));
            }
            Ok((key, value))
        },
    }
}

/// A decoded request. Constructed once by the connection machine from the
/// stream's bytes; immutable afterwards.
#[derive(Debug)]
pub struct HttpRequest {
    pub method: HttpMethod,
    pub path: String,
    pub http_version: String,
    pub headers: HttpHeaders,
    pub body: Option<Vec<u8>>,
}

/// Mathematical model of a request.
pub struct RequestView {
    pub method: MethodView,
    pub path: Seq<char>,
    pub http_version: Seq<char>,
    pub headers: Seq<(Seq<char>, Seq<HeaderValueView>)>,
    pub body: Option<Seq<u8>>,
}

impl View for HttpRequest {
    type V = RequestView;

    open spec fn view(&self) -> RequestView {
        RequestView {
            method: self.method@,
            path: self.path@,
            http_version: self.http_version@,
            headers: self.headers@,
            body: match &self.body {
                Some(b) => Some(b@),
                None => None,
            },
        }
    }
}

} // verus!

//! The typed header model: well-known header names matched without regard
//! to case, typed values for the headers the server interprets, and the
//! ordered table a message's headers are collected in.

use vstd::prelude::*;

use crate::text::{
    all_digits, dec_val, lower_seq, spec_dec, spec_digits, spec_find, spec_numeral_ok,
    spec_numeral_val, str_eq_ignore_case, lemma_spec_find, find_char, parse_u16, parse_usize,
    usize_to_string, is_digit_char, lemma_dec_round_trip,
};

verus! {

/// Canonical form by which header names are compared: ASCII lower case.
pub open spec fn name_key(s: Seq<char>) -> Seq<char> {
    lower_seq(s)
}

/// A header name: one of the well-known names, or `Custom` with the
/// original spelling. Comparison is by canonical (lower-cased) form.
#[derive(Debug)]
pub enum HttpHeaderName {
    CacheControl,
    Connection,
    Date,
    Pragma,
    Trailer,
    TransferEncoding,
    Upgrade,
    Via,
    Warning,
    Accept,
    AcceptCharset,
    AcceptEncoding,
    AcceptLanguage,
    Authorization,
    Cookie,
    ContentLength,
    ContentType,
    Expect,
    From,
    Host,
    IfMatch,
    IfModifiedSince,
    IfNoneMatch,
    IfRange,
    IfUnmodifiedSince,
    MaxForwards,
    ProxyAuthorization,
    Range,
    Referer,
    TE,
    UserAgent,
    Age,
    Allow,
    ContentEncoding,
    ContentLanguage,
    ContentLocation,
    ContentMD5,
    ContentRange,
    Expires,
    LastModified,
    Location,
    ProxyAuthenticate,
    RetryAfter,
    Server,
    Vary,
    WWWAuthenticate,
    Custom(String),
}

impl View for HttpHeaderName {
    type V = Seq<char>;

    /// A name's view is its wire spelling: the canonical capitalization
    /// for known names, the original spelling for custom ones.
    open spec fn view(&self) -> Seq<char> {
        match self {
            HttpHeaderName::CacheControl => "Cache-Control"@,
            HttpHeaderName::Connection => "Connection"@,
            HttpHeaderName::Date => "Date"@,
            HttpHeaderName::Pragma => "Pragma"@,
            HttpHeaderName::Trailer => "Trailer"@,
            HttpHeaderName::TransferEncoding => "Transfer-Encoding"@,
            HttpHeaderName::Upgrade => "Upgrade"@,
            HttpHeaderName::Via => "Via"@,
            HttpHeaderName::Warning => "Warning"@,
            HttpHeaderName::Accept => "Accept"@,
            HttpHeaderName::AcceptCharset => "Accept-Charset"@,
            HttpHeaderName::AcceptEncoding => "Accept-Encoding"@,
            HttpHeaderName::AcceptLanguage => "Accept-Language"@,
            HttpHeaderName::Authorization => "Authorization"@,
            HttpHeaderName::Cookie => "Cookie"@,
            HttpHeaderName::ContentLength => "Content-Length"@,
            HttpHeaderName::ContentType => "Content-Type"@,
            HttpHeaderName::Expect => "Expect"@,
            HttpHeaderName::From => "From"@,
            HttpHeaderName::Host => "Host"@,
            HttpHeaderName::IfMatch => "If-Match"@,
            HttpHeaderName::IfModifiedSince => "If-Modified-Since"@,
            HttpHeaderName::IfNoneMatch => "If-None-Match"@,
            HttpHeaderName::IfRange => "If-Range"@,
            HttpHeaderName::IfUnmodifiedSince => "If-Unmodified-Since"@,
            HttpHeaderName::MaxForwards => "Max-Forwards"@,
            HttpHeaderName::ProxyAuthorization => "Proxy-Authorization"@,
            HttpHeaderName::Range => "Range"@,
            HttpHeaderName::Referer => "Referer"@,
            HttpHeaderName::TE => "TE"@,
            HttpHeaderName::UserAgent => "User-Agent"@,
            HttpHeaderName::Age => "Age"@,
            HttpHeaderName::Allow => "Allow"@,
            HttpHeaderName::ContentEncoding => "Content-Encoding"@,
            HttpHeaderName::ContentLanguage => "Content-Language"@,
            HttpHeaderName::ContentLocation => "Content-Location"@,
            HttpHeaderName::ContentMD5 => "Content-MD5"@,
            HttpHeaderName::ContentRange => "Content-Range"@,
            HttpHeaderName::Expires => "Expires"@,
            HttpHeaderName::LastModified => "Last-Modified"@,
            HttpHeaderName::Location => "Location"@,
            HttpHeaderName::ProxyAuthenticate => "Proxy-Authenticate"@,
            HttpHeaderName::RetryAfter => "Retry-After"@,
            HttpHeaderName::Server => "Server"@,
            HttpHeaderName::Vary => "Vary"@,
            HttpHeaderName::WWWAuthenticate => "WWW-Authenticate"@,
            HttpHeaderName::Custom(s) => s@,
        }
    }
}

/// Whether a raw key names one of the known headers, matched without
/// regard to case.
pub open spec fn spec_known_name(s: Seq<char>) -> bool {
    ||| name_key(s) == name_key("Cache-Control"@)
    ||| name_key(s) == name_key("Connection"@)
    ||| name_key(s) == name_key("Date"@)
    ||| name_key(s) == name_key("Pragma"@)
    ||| name_key(s) == name_key("Trailer"@)
    ||| name_key(s) == name_key("Transfer-Encoding"@)
    ||| name_key(s) == name_key("Upgrade"@)
    ||| name_key(s) == name_key("Via"@)
    ||| name_key(s) == name_key("Warning"@)
    ||| name_key(s) == name_key("Accept"@)
    ||| name_key(s) == name_key("Accept-Charset"@)
    ||| name_key(s) == name_key("Accept-Encoding"@)
    ||| name_key(s) == name_key("Accept-Language"@)
    ||| name_key(s) == name_key("Authorization"@)
    ||| name_key(s) == name_key("Cookie"@)
    ||| name_key(s) == name_key("Content-Length"@)
    ||| name_key(s) == name_key("Content-Type"@)
    ||| name_key(s) == name_key("Expect"@)
    ||| name_key(s) == name_key("From"@)
    ||| name_key(s) == name_key("Host"@)
    ||| name_key(s) == name_key("If-Match"@)
    ||| name_key(s) == name_key("If-Modified-Since"@)
    ||| name_key(s) == name_key("If-None-Match"@)
    ||| name_key(s) == name_key("If-Range"@)
    ||| name_key(s) == name_key("If-Unmodified-Since"@)
    ||| name_key(s) == name_key("Max-Forwards"@)
    ||| name_key(s) == name_key("Proxy-Authorization"@)
    ||| name_key(s) == name_key("Range"@)
    ||| name_key(s) == name_key("Referer"@)
    ||| name_key(s) == name_key("TE"@)
    ||| name_key(s) == name_key("User-Agent"@)
    ||| name_key(s) == name_key("Age"@)
    ||| name_key(s) == name_key("Allow"@)
    ||| name_key(s) == name_key("Content-Encoding"@)
    ||| name_key(s) == name_key("Content-Language"@)
    ||| name_key(s) == name_key("Content-Location"@)
    ||| name_key(s) == name_key("Content-MD5"@)
    ||| name_key(s) == name_key("Content-Range"@)
    ||| name_key(s) == name_key("Expires"@)
    ||| name_key(s) == name_key("Last-Modified"@)
    ||| name_key(s) == name_key("Location"@)
    ||| name_key(s) == name_key("Proxy-Authenticate"@)
    ||| name_key(s) == name_key("Retry-After"@)
    ||| name_key(s) == name_key("Server"@)
    ||| name_key(s) == name_key("Vary"@)
    ||| name_key(s) == name_key("WWW-Authenticate"@)
}

/// The wire spelling of the name a raw key denotes: the canonical spelling
/// when the key matches a known name without regard to case, else the key
/// itself.
pub open spec fn spec_parse_name(s: Seq<char>) -> Seq<char> {
    if name_key(s) == name_key("Cache-Control"@) {
        "Cache-Control"@
    } else if name_key(s) == name_key("Connection"@) {
        "Connection"@
    } else if name_key(s) == name_key("Date"@) {
        "Date"@
    } else if name_key(s) == name_key("Pragma"@) {
        "Pragma"@
    } else if name_key(s) == name_key("Trailer"@) {
        "Trailer"@
    } else if name_key(s) == name_key("Transfer-Encoding"@) {
        "Transfer-Encoding"@
    } else if name_key(s) == name_key("Upgrade"@) {
        "Upgrade"@
    } else if name_key(s) == name_key("Via"@) {
        "Via"@
    } else if name_key(s) == name_key("Warning"@) {
        "Warning"@
    } else if name_key(s) == name_key("Accept"@) {
        "Accept"@
    } else if name_key(s) == name_key("Accept-Charset"@) {
        "Accept-Charset"@
    } else if name_key(s) == name_key("Accept-Encoding"@) {
        "Accept-Encoding"@
    } else if name_key(s) == name_key("Accept-Language"@) {
        "Accept-Language"@
    } else if name_key(s) == name_key("Authorization"@) {
        "Authorization"@
    } else if name_key(s) == name_key("Cookie"@) {
        "Cookie"@
    } else if name_key(s) == name_key("Content-Length"@) {
        "Content-Length"@
    } else if name_key(s) == name_key("Content-Type"@) {
        "Content-Type"@
    } else if name_key(s) == name_key("Expect"@) {
        "Expect"@
    } else if name_key(s) == name_key("From"@) {
        "From"@
    } else if name_key(s) == name_key("Host"@) {
        "Host"@
    } else if name_key(s) == name_key("If-Match"@) {
        "If-Match"@
    } else if name_key(s) == name_key("If-Modified-Since"@) {
        "If-Modified-Since"@
    } else if name_key(s) == name_key("If-None-Match"@) {
        "If-None-Match"@
    } else if name_key(s) == name_key("If-Range"@) {
        "If-Range"@
    } else if name_key(s) == name_key("If-Unmodified-Since"@) {
        "If-Unmodified-Since"@
    } else if name_key(s) == name_key("Max-Forwards"@) {
        "Max-Forwards"@
    } else if name_key(s) == name_key("Proxy-Authorization"@) {
        "Proxy-Authorization"@
    } else if name_key(s) == name_key("Range"@) {
        "Range"@
    } else if name_key(s) == name_key("Referer"@) {
        "Referer"@
    } else if name_key(s) == name_key("TE"@) {
        "TE"@
    } else if name_key(s) == name_key("User-Agent"@) {
        "User-Agent"@
    } else if name_key(s) == name_key("Age"@) {
        "Age"@
    } else if name_key(s) == name_key("Allow"@) {
        "Allow"@
    } else if name_key(s) == name_key("Content-Encoding"@) {
        "Content-Encoding"@
    } else if name_key(s) == name_key("Content-Language"@) {
        "Content-Language"@
    } else if name_key(s) == name_key("Content-Location"@) {
        "Content-Location"@
    } else if name_key(s) == name_key("Content-MD5"@) {
        "Content-MD5"@
    } else if name_key(s) == name_key("Content-Range"@) {
        "Content-Range"@
    } else if name_key(s) == name_key("Expires"@) {
        "Expires"@
    } else if name_key(s) == name_key("Last-Modified"@) {
        "Last-Modified"@
    } else if name_key(s) == name_key("Location"@) {
        "Location"@
    } else if name_key(s) == name_key("Proxy-Authenticate"@) {
        "Proxy-Authenticate"@
    } else if name_key(s) == name_key("Retry-After"@) {
        "Retry-After"@
    } else if name_key(s) == name_key("Server"@) {
        "Server"@
    } else if name_key(s) == name_key("Vary"@) {
        "Vary"@
    } else if name_key(s) == name_key("WWW-Authenticate"@) {
        "WWW-Authenticate"@
    } else {
        s
    }
}

/// The four header names the server interprets differ, in canonical
/// form, from every other known name.
proof fn lemma_special_names_distinct()
    ensures
        name_key("Cache-Control"@) != name_key("Content-Length"@),
        name_key("Connection"@) != name_key("Content-Length"@),
        name_key("Date"@) != name_key("Content-Length"@),
        name_key("Pragma"@) != name_key("Content-Length"@),
        name_key("Trailer"@) != name_key("Content-Length"@),
        name_key("Transfer-Encoding"@) != name_key("Content-Length"@),
        name_key("Upgrade"@) != name_key("Content-Length"@),
        name_key("Via"@) != name_key("Content-Length"@),
        name_key("Warning"@) != name_key("Content-Length"@),
        name_key("Accept"@) != name_key("Content-Length"@),
        name_key("Accept-Charset"@) != name_key("Content-Length"@),
        name_key("Accept-Encoding"@) != name_key("Content-Length"@),
        name_key("Accept-Language"@) != name_key("Content-Length"@),
        name_key("Authorization"@) != name_key("Content-Length"@),
        name_key("Cookie"@) != name_key("Content-Length"@),
        name_key("Content-Type"@) != name_key("Content-Length"@),
        name_key("Expect"@) != name_key("Content-Length"@),
        name_key("From"@) != name_key("Content-Length"@),
        name_key("Host"@) != name_key("Content-Length"@),
        name_key("If-Match"@) != name_key("Content-Length"@),
        name_key("If-Modified-Since"@) != name_key("Content-Length"@),
        name_key("If-None-Match"@) != name_key("Content-Length"@),
        name_key("If-Range"@) != name_key("Content-Length"@),
        name_key("If-Unmodified-Since"@) != name_key("Content-Length"@),
        name_key("Max-Forwards"@) != name_key("Content-Length"@),
        name_key("Proxy-Authorization"@) != name_key("Content-Length"@),
        name_key("Range"@) != name_key("Content-Length"@),
        name_key("Referer"@) != name_key("Content-Length"@),
        name_key("TE"@) != name_key("Content-Length"@),
        name_key("User-Agent"@) != name_key("Content-Length"@),
        name_key("Age"@) != name_key("Content-Length"@),
        name_key("Allow"@) != name_key("Content-Length"@),
        name_key("Content-Encoding"@) != name_key("Content-Length"@),
        name_key("Content-Language"@) != name_key("Content-Length"@),
        name_key("Content-Location"@) != name_key("Content-Length"@),
        name_key("Content-MD5"@) != name_key("Content-Length"@),
        name_key("Content-Range"@) != name_key("Content-Length"@),
        name_key("Expires"@) != name_key("Content-Length"@),
        name_key("Last-Modified"@) != name_key("Content-Length"@),
        name_key("Location"@) != name_key("Content-Length"@),
        name_key("Proxy-Authenticate"@) != name_key("Content-Length"@),
        name_key("Retry-After"@) != name_key("Content-Length"@),
        name_key("Server"@) != name_key("Content-Length"@),
        name_key("Vary"@) != name_key("Content-Length"@),
        name_key("WWW-Authenticate"@) != name_key("Content-Length"@),
        name_key("Cache-Control"@) != name_key("Content-Type"@),
        name_key("Connection"@) != name_key("Content-Type"@),
        name_key("Date"@) != name_key("Content-Type"@),
        name_key("Pragma"@) != name_key("Content-Type"@),
        name_key("Trailer"@) != name_key("Content-Type"@),
        name_key("Transfer-Encoding"@) != name_key("Content-Type"@),
        name_key("Upgrade"@) != name_key("Content-Type"@),
        name_key("Via"@) != name_key("Content-Type"@),
        name_key("Warning"@) != name_key("Content-Type"@),
        name_key("Accept"@) != name_key("Content-Type"@),
        name_key("Accept-Charset"@) != name_key("Content-Type"@),
        name_key("Accept-Encoding"@) != name_key("Content-Type"@),
        name_key("Accept-Language"@) != name_key("Content-Type"@),
        name_key("Authorization"@) != name_key("Content-Type"@),
        name_key("Cookie"@) != name_key("Content-Type"@),
        name_key("Content-Length"@) != name_key("Content-Type"@),
        name_key("Expect"@) != name_key("Content-Type"@),
        name_key("From"@) != name_key("Content-Type"@),
        name_key("Host"@) != name_key("Content-Type"@),
        name_key("If-Match"@) != name_key("Content-Type"@),
        name_key("If-Modified-Since"@) != name_key("Content-Type"@),
        name_key("If-None-Match"@) != name_key("Content-Type"@),
        name_key("If-Range"@) != name_key("Content-Type"@),
        name_key("If-Unmodified-Since"@) != name_key("Content-Type"@),
        name_key("Max-Forwards"@) != name_key("Content-Type"@),
        name_key("Proxy-Authorization"@) != name_key("Content-Type"@),
        name_key("Range"@) != name_key("Content-Type"@),
        name_key("Referer"@) != name_key("Content-Type"@),
        name_key("TE"@) != name_key("Content-Type"@),
        name_key("User-Agent"@) != name_key("Content-Type"@),
        name_key("Age"@) != name_key("Content-Type"@),
        name_key("Allow"@) != name_key("Content-Type"@),
        name_key("Content-Encoding"@) != name_key("Content-Type"@),
        name_key("Content-Language"@) != name_key("Content-Type"@),
        name_key("Content-Location"@) != name_key("Content-Type"@),
        name_key("Content-MD5"@) != name_key("Content-Type"@),
        name_key("Content-Range"@) != name_key("Content-Type"@),
        name_key("Expires"@) != name_key("Content-Type"@),
        name_key("Last-Modified"@) != name_key("Content-Type"@),
        name_key("Location"@) != name_key("Content-Type"@),
        name_key("Proxy-Authenticate"@) != name_key("Content-Type"@),
        name_key("Retry-After"@) != name_key("Content-Type"@),
        name_key("Server"@) != name_key("Content-Type"@),
        name_key("Vary"@) != name_key("Content-Type"@),
        name_key("WWW-Authenticate"@) != name_key("Content-Type"@),
        name_key("Cache-Control"@) != name_key("Host"@),
        name_key("Connection"@) != name_key("Host"@),
        name_key("Date"@) != name_key("Host"@),
        name_key("Pragma"@) != name_key("Host"@),
        name_key("Trailer"@) != name_key("Host"@),
        name_key("Transfer-Encoding"@) != name_key("Host"@),
        name_key("Upgrade"@) != name_key("Host"@),
        name_key("Via"@) != name_key("Host"@),
        name_key("Warning"@) != name_key("Host"@),
        name_key("Accept"@) != name_key("Host"@),
        name_key("Accept-Charset"@) != name_key("Host"@),
        name_key("Accept-Encoding"@) != name_key("Host"@),
        name_key("Accept-Language"@) != name_key("Host"@),
        name_key("Authorization"@) != name_key("Host"@),
        name_key("Cookie"@) != name_key("Host"@),
        name_key("Content-Length"@) != name_key("Host"@),
        name_key("Content-Type"@) != name_key("Host"@),
        name_key("Expect"@) != name_key("Host"@),
        name_key("From"@) != name_key("Host"@),
        name_key("If-Match"@) != name_key("Host"@),
        name_key("If-Modified-Since"@) != name_key("Host"@),
        name_key("If-None-Match"@) != name_key("Host"@),
        name_key("If-Range"@) != name_key("Host"@),
        name_key("If-Unmodified-Since"@) != name_key("Host"@),
        name_key("Max-Forwards"@) != name_key("Host"@),
        name_key("Proxy-Authorization"@) != name_key("Host"@),
        name_key("Range"@) != name_key("Host"@),
        name_key("Referer"@) != name_key("Host"@),
        name_key("TE"@) != name_key("Host"@),
        name_key("User-Agent"@) != name_key("Host"@),
        name_key("Age"@) != name_key("Host"@),
        name_key("Allow"@) != name_key("Host"@),
        name_key("Content-Encoding"@) != name_key("Host"@),
        name_key("Content-Language"@) != name_key("Host"@),
        name_key("Content-Location"@) != name_key("Host"@),
        name_key("Content-MD5"@) != name_key("Host"@),
        name_key("Content-Range"@) != name_key("Host"@),
        name_key("Expires"@) != name_key("Host"@),
        name_key("Last-Modified"@) != name_key("Host"@),
        name_key("Location"@) != name_key("Host"@),
        name_key("Proxy-Authenticate"@) != name_key("Host"@),
        name_key("Retry-After"@) != name_key("Host"@),
        name_key("Server"@) != name_key("Host"@),
        name_key("Vary"@) != name_key("Host"@),
        name_key("WWW-Authenticate"@) != name_key("Host"@),
        name_key("Cache-Control"@) != name_key("Connection"@),
        name_key("Date"@) != name_key("Connection"@),
        name_key("Pragma"@) != name_key("Connection"@),
        name_key("Trailer"@) != name_key("Connection"@),
        name_key("Transfer-Encoding"@) != name_key("Connection"@),
        name_key("Upgrade"@) != name_key("Connection"@),
        name_key("Via"@) != name_key("Connection"@),
        name_key("Warning"@) != name_key("Connection"@),
        name_key("Accept"@) != name_key("Connection"@),
        name_key("Accept-Charset"@) != name_key("Connection"@),
        name_key("Accept-Encoding"@) != name_key("Connection"@),
        name_key("Accept-Language"@) != name_key("Connection"@),
        name_key("Authorization"@) != name_key("Connection"@),
        name_key("Cookie"@) != name_key("Connection"@),
        name_key("Content-Length"@) != name_key("Connection"@),
        name_key("Content-Type"@) != name_key("Connection"@),
        name_key("Expect"@) != name_key("Connection"@),
        name_key("From"@) != name_key("Connection"@),
        name_key("Host"@) != name_key("Connection"@),
        name_key("If-Match"@) != name_key("Connection"@),
        name_key("If-Modified-Since"@) != name_key("Connection"@),
        name_key("If-None-Match"@) != name_key("Connection"@),
        name_key("If-Range"@) != name_key("Connection"@),
        name_key("If-Unmodified-Since"@) != name_key("Connection"@),
        name_key("Max-Forwards"@) != name_key("Connection"@),
        name_key("Proxy-Authorization"@) != name_key("Connection"@),
        name_key("Range"@) != name_key("Connection"@),
        name_key("Referer"@) != name_key("Connection"@),
        name_key("TE"@) != name_key("Connection"@),
        name_key("User-Agent"@) != name_key("Connection"@),
        name_key("Age"@) != name_key("Connection"@),
        name_key("Allow"@) != name_key("Connection"@),
        name_key("Content-Encoding"@) != name_key("Connection"@),
        name_key("Content-Language"@) != name_key("Connection"@),
        name_key("Content-Location"@) != name_key("Connection"@),
        name_key("Content-MD5"@) != name_key("Connection"@),
        name_key("Content-Range"@) != name_key("Connection"@),
        name_key("Expires"@) != name_key("Connection"@),
        name_key("Last-Modified"@) != name_key("Connection"@),
        name_key("Location"@) != name_key("Connection"@),
        name_key("Proxy-Authenticate"@) != name_key("Connection"@),
        name_key("Retry-After"@) != name_key("Connection"@),
        name_key("Server"@) != name_key("Connection"@),
        name_key("Vary"@) != name_key("Connection"@),
        name_key("WWW-Authenticate"@) != name_key("Connection"@),
{
    reveal_strlit("Cache-Control");
    reveal_strlit("Connection");
    reveal_strlit("Date");
    reveal_strlit("Pragma");
    reveal_strlit("Trailer");
    reveal_strlit("Transfer-Encoding");
    reveal_strlit("Upgrade");
    reveal_strlit("Via");
    reveal_strlit("Warning");
    reveal_strlit("Accept");
    reveal_strlit("Accept-Charset");
    reveal_strlit("Accept-Encoding");
    reveal_strlit("Accept-Language");
    reveal_strlit("Authorization");
    reveal_strlit("Cookie");
    reveal_strlit("Content-Length");
    reveal_strlit("Content-Type");
    reveal_strlit("Expect");
    reveal_strlit("From");
    reveal_strlit("Host");
    reveal_strlit("If-Match");
    reveal_strlit("If-Modified-Since");
    reveal_strlit("If-None-Match");
    reveal_strlit("If-Range");
    reveal_strlit("If-Unmodified-Since");
    reveal_strlit("Max-Forwards");
    reveal_strlit("Proxy-Authorization");
    reveal_strlit("Range");
    reveal_strlit("Referer");
    reveal_strlit("TE");
    reveal_strlit("User-Agent");
    reveal_strlit("Age");
    reveal_strlit("Allow");
    reveal_strlit("Content-Encoding");
    reveal_strlit("Content-Language");
    reveal_strlit("Content-Location");
    reveal_strlit("Content-MD5");
    reveal_strlit("Content-Range");
    reveal_strlit("Expires");
    reveal_strlit("Last-Modified");
    reveal_strlit("Location");
    reveal_strlit("Proxy-Authenticate");
    reveal_strlit("Retry-After");
    reveal_strlit("Server");
    reveal_strlit("Vary");
    reveal_strlit("WWW-Authenticate");
    assert(name_key("Cache-Control"@).len() == 13);
    assert(name_key("Connection"@).len() == 10);
    assert(name_key("Date"@).len() == 4);
    assert(name_key("Pragma"@).len() == 6);
    assert(name_key("Trailer"@).len() == 7);
    assert(name_key("Transfer-Encoding"@).len() == 17);
    assert(name_key("Upgrade"@).len() == 7);
    assert(name_key("Via"@).len() == 3);
    assert(name_key("Warning"@).len() == 7);
    assert(name_key("Accept"@).len() == 6);
    assert(name_key("Accept-Charset"@).len() == 14);
    assert(name_key("Accept-Encoding"@).len() == 15);
    assert(name_key("Accept-Language"@).len() == 15);
    assert(name_key("Authorization"@).len() == 13);
    assert(name_key("Cookie"@).len() == 6);
    assert(name_key("Content-Length"@).len() == 14);
    assert(name_key("Content-Type"@).len() == 12);
    assert(name_key("Expect"@).len() == 6);
    assert(name_key("From"@).len() == 4);
    assert(name_key("Host"@).len() == 4);
    assert(name_key("If-Match"@).len() == 8);
    assert(name_key("If-Modified-Since"@).len() == 17);
    assert(name_key("If-None-Match"@).len() == 13);
    assert(name_key("If-Range"@).len() == 8);
    assert(name_key("If-Unmodified-Since"@).len() == 19);
    assert(name_key("Max-Forwards"@).len() == 12);
    assert(name_key("Proxy-Authorization"@).len() == 19);
    assert(name_key("Range"@).len() == 5);
    assert(name_key("Referer"@).len() == 7);
    assert(name_key("TE"@).len() == 2);
    assert(name_key("User-Agent"@).len() == 10);
    assert(name_key("Age"@).len() == 3);
    assert(name_key("Allow"@).len() == 5);
    assert(name_key("Content-Encoding"@).len() == 16);
    assert(name_key("Content-Language"@).len() == 16);
    assert(name_key("Content-Location"@).len() == 16);
    assert(name_key("Content-MD5"@).len() == 11);
    assert(name_key("Content-Range"@).len() == 13);
    assert(name_key("Expires"@).len() == 7);
    assert(name_key("Last-Modified"@).len() == 13);
    assert(name_key("Location"@).len() == 8);
    assert(name_key("Proxy-Authenticate"@).len() == 18);
    assert(name_key("Retry-After"@).len() == 11);
    assert(name_key("Server"@).len() == 6);
    assert(name_key("Vary"@).len() == 4);
    assert(name_key("WWW-Authenticate"@).len() == 16);
    assert(name_key("Accept-Charset"@)[0] != name_key("Content-Length"@)[0]);
    assert(name_key("Max-Forwards"@)[0] != name_key("Content-Type"@)[0]);
    assert(name_key("Date"@)[0] != name_key("Host"@)[0]);
    assert(name_key("From"@)[0] != name_key("Host"@)[0]);
    assert(name_key("Vary"@)[0] != name_key("Host"@)[0]);
    assert(name_key("User-Agent"@)[0] != name_key("Connection"@)[0]);
}

impl HttpHeaderName {
    /// Which header name a raw key denotes, matched without regard to case;
    /// an unknown key is kept as spelled.
    pub fn parse(s: &str) -> (r: HttpHeaderName)
        ensures
            r@ == spec_parse_name(s@),
            r is Custom <==> !spec_known_name(s@),
            r matches HttpHeaderName::Custom(t) ==> t@ == s@,
            r is ContentLength <==> name_key(s@) == name_key("Content-Length"@),
            r is ContentType <==> name_key(s@) == name_key("Content-Type"@),
            r is Host <==> name_key(s@) == name_key("Host"@),
            r is Connection <==> name_key(s@) == name_key("Connection"@),
    {
        proof {
            lemma_special_names_distinct();
        }
        if str_eq_ignore_case(s, "Cache-Control") {
            HttpHeaderName::CacheControl
        } else if str_eq_ignore_case(s, "Connection") {
            HttpHeaderName::Connection
        } else if str_eq_ignore_case(s, "Date") {
            HttpHeaderName::Date
        } else if str_eq_ignore_case(s, "Pragma") {
            HttpHeaderName::Pragma
        } else if str_eq_ignore_case(s, "Trailer") {
            HttpHeaderName::Trailer
        } else if str_eq_ignore_case(s, "Transfer-Encoding") {
            HttpHeaderName::TransferEncoding
        } else if str_eq_ignore_case(s, "Upgrade") {
            HttpHeaderName::Upgrade
        } else if str_eq_ignore_case(s, "Via") {
            HttpHeaderName::Via
        } else if str_eq_ignore_case(s, "Warning") {
            HttpHeaderName::Warning
        } else if str_eq_ignore_case(s, "Accept") {
            HttpHeaderName::Accept
        } else if str_eq_ignore_case(s, "Accept-Charset") {
            HttpHeaderName::AcceptCharset
        } else if str_eq_ignore_case(s, "Accept-Encoding") {
            HttpHeaderName::AcceptEncoding
        } else if str_eq_ignore_case(s, "Accept-Language") {
            HttpHeaderName::AcceptLanguage
        } else if str_eq_ignore_case(s, "Authorization") {
            HttpHeaderName::Authorization
        } else if str_eq_ignore_case(s, "Cookie") {
            HttpHeaderName::Cookie
        } else if str_eq_ignore_case(s, "Content-Length") {
            HttpHeaderName::ContentLength
        } else if str_eq_ignore_case(s, "Content-Type") {
            HttpHeaderName::ContentType
        } else if str_eq_ignore_case(s, "Expect") {
            HttpHeaderName::Expect
        } else if str_eq_ignore_case(s, "From") {
            HttpHeaderName::From
        } else if str_eq_ignore_case(s, "Host") {
            HttpHeaderName::Host
        } else if str_eq_ignore_case(s, "If-Match") {
            HttpHeaderName::IfMatch
        } else if str_eq_ignore_case(s, "If-Modified-Since") {
            HttpHeaderName::IfModifiedSince
        } else if str_eq_ignore_case(s, "If-None-Match") {
            HttpHeaderName::IfNoneMatch
        } else if str_eq_ignore_case(s, "If-Range") {
            HttpHeaderName::IfRange
        } else if str_eq_ignore_case(s, "If-Unmodified-Since") {
            HttpHeaderName::IfUnmodifiedSince
        } else if str_eq_ignore_case(s, "Max-Forwards") {
            HttpHeaderName::MaxForwards
        } else if str_eq_ignore_case(s, "Proxy-Authorization") {
            HttpHeaderName::ProxyAuthorization
        } else if str_eq_ignore_case(s, "Range") {
            HttpHeaderName::Range
        } else if str_eq_ignore_case(s, "Referer") {
            HttpHeaderName::Referer
        } else if str_eq_ignore_case(s, "TE") {
            HttpHeaderName::TE
        } else if str_eq_ignore_case(s, "User-Agent") {
            HttpHeaderName::UserAgent
        } else if str_eq_ignore_case(s, "Age") {
            HttpHeaderName::Age
        } else if str_eq_ignore_case(s, "Allow") {
            HttpHeaderName::Allow
        } else if str_eq_ignore_case(s, "Content-Encoding") {
            HttpHeaderName::ContentEncoding
        } else if str_eq_ignore_case(s, "Content-Language") {
            HttpHeaderName::ContentLanguage
        } else if str_eq_ignore_case(s, "Content-Location") {
            HttpHeaderName::ContentLocation
        } else if str_eq_ignore_case(s, "Content-MD5") {
            HttpHeaderName::ContentMD5
        } else if str_eq_ignore_case(s, "Content-Range") {
            HttpHeaderName::ContentRange
        } else if str_eq_ignore_case(s, "Expires") {
            HttpHeaderName::Expires
        } else if str_eq_ignore_case(s, "Last-Modified") {
            HttpHeaderName::LastModified
        } else if str_eq_ignore_case(s, "Location") {
            HttpHeaderName::Location
        } else if str_eq_ignore_case(s, "Proxy-Authenticate") {
            HttpHeaderName::ProxyAuthenticate
        } else if str_eq_ignore_case(s, "Retry-After") {
            HttpHeaderName::RetryAfter
        } else if str_eq_ignore_case(s, "Server") {
            HttpHeaderName::Server
        } else if str_eq_ignore_case(s, "Vary") {
            HttpHeaderName::Vary
        } else if str_eq_ignore_case(s, "WWW-Authenticate") {
            HttpHeaderName::WWWAuthenticate
        } else {
            HttpHeaderName::Custom(String::from_str(s))
        }
    }

    /// The canonical wire spelling of this name.
    pub fn as_str(&self) -> (r: &str)
        ensures
            r@ == self@,
    {
        match self {
            HttpHeaderName::CacheControl => "Cache-Control",
            HttpHeaderName::Connection => "Connection",
            HttpHeaderName::Date => "Date",
            HttpHeaderName::Pragma => "Pragma",
            HttpHeaderName::Trailer => "Trailer",
            HttpHeaderName::TransferEncoding => "Transfer-Encoding",
            HttpHeaderName::Upgrade => "Upgrade",
            HttpHeaderName::Via => "Via",
            HttpHeaderName::Warning => "Warning",
            HttpHeaderName::Accept => "Accept",
            HttpHeaderName::AcceptCharset => "Accept-Charset",
            HttpHeaderName::AcceptEncoding => "Accept-Encoding",
            HttpHeaderName::AcceptLanguage => "Accept-Language",
            HttpHeaderName::Authorization => "Authorization",
            HttpHeaderName::Cookie => "Cookie",
            HttpHeaderName::ContentLength => "Content-Length",
            HttpHeaderName::ContentType => "Content-Type",
            HttpHeaderName::Expect => "Expect",
            HttpHeaderName::From => "From",
            HttpHeaderName::Host => "Host",
            HttpHeaderName::IfMatch => "If-Match",
            HttpHeaderName::IfModifiedSince => "If-Modified-Since",
            HttpHeaderName::IfNoneMatch => "If-None-Match",
            HttpHeaderName::IfRange => "If-Range",
            HttpHeaderName::IfUnmodifiedSince => "If-Unmodified-Since",
            HttpHeaderName::MaxForwards => "Max-Forwards",
            HttpHeaderName::ProxyAuthorization => "Proxy-Authorization",
            HttpHeaderName::Range => "Range",
            HttpHeaderName::Referer => "Referer",
            HttpHeaderName::TE => "TE",
            HttpHeaderName::UserAgent => "User-Agent",
            HttpHeaderName::Age => "Age",
            HttpHeaderName::Allow => "Allow",
            HttpHeaderName::ContentEncoding => "Content-Encoding",
            HttpHeaderName::ContentLanguage => "Content-Language",
            HttpHeaderName::ContentLocation => "Content-Location",
            HttpHeaderName::ContentMD5 => "Content-MD5",
            HttpHeaderName::ContentRange => "Content-Range",
            HttpHeaderName::Expires => "Expires",
            HttpHeaderName::LastModified => "Last-Modified",
            HttpHeaderName::Location => "Location",
            HttpHeaderName::ProxyAuthenticate => "Proxy-Authenticate",
            HttpHeaderName::RetryAfter => "Retry-After",
            HttpHeaderName::Server => "Server",
            HttpHeaderName::Vary => "Vary",
            HttpHeaderName::WWWAuthenticate => "WWW-Authenticate",
            HttpHeaderName::Custom(s) => s.as_str(),
        }
    }
}

impl PartialEq for HttpHeaderName {
    /// Names are equal when their canonical (lower-cased) forms are.
    fn eq(&self, other: &HttpHeaderName) -> (r: bool) {
        str_eq_ignore_case(self.as_str(), other.as_str())
    }
}

impl vstd::std_specs::cmp::PartialEqSpecImpl for HttpHeaderName {
    open spec fn obeys_eq_spec() -> bool {
        true
    }

    open spec fn eq_spec(&self, other: &HttpHeaderName) -> bool {
        name_key(self@) == name_key(other@)
    }
}

// ---- typed header values ----

/// A typed header value. The shape depends on the owning name: an integer
/// for Content-Length, host and optional port for Host, a small closed set
/// for Connection, the raw text for Content-Type and everything else.
#[derive(Debug, PartialEq, Eq)]
pub enum HttpHeaderValue {
    ContentLength(usize),
    ContentType(String),
    Host(String, Option<u16>),
    Connection(ConnectionHeaderValue),
    Raw(String),
}

#[derive(Debug, PartialEq, Eq)]
pub enum ConnectionHeaderValue {
    Close,
    KeepAlive,
    Upgrade,
    Custom(String),
}

/// Mathematical model of a typed header value.
pub enum HeaderValueView {
    ContentLength(int),
    ContentType(Seq<char>),
    Host(Seq<char>, Option<u16>),
    Connection(ConnectionView),
    Raw(Seq<char>),
}

pub enum ConnectionView {
    Close,
    KeepAlive,
    Upgrade,
    Custom(Seq<char>),
}

impl View for ConnectionHeaderValue {
    type V = ConnectionView;

    open spec fn view(&self) -> ConnectionView {
        match self {
            ConnectionHeaderValue::Close => ConnectionView::Close,
            ConnectionHeaderValue::KeepAlive => ConnectionView::KeepAlive,
            ConnectionHeaderValue::Upgrade => ConnectionView::Upgrade,
            ConnectionHeaderValue::Custom(s) => ConnectionView::Custom(s@),
        }
    }
}

impl View for HttpHeaderValue {
    type V = HeaderValueView;

    open spec fn view(&self) -> HeaderValueView {
        match self {
            HttpHeaderValue::ContentLength(n) => HeaderValueView::ContentLength(*n as int),
            HttpHeaderValue::ContentType(s) => HeaderValueView::ContentType(s@),
            HttpHeaderValue::Host(h, p) => HeaderValueView::Host(h@, *p),
            HttpHeaderValue::Connection(c) => HeaderValueView::Connection(c@),
            HttpHeaderValue::Raw(s) => HeaderValueView::Raw(s@),
        }
    }
}

/// Value of a Content-Length header: the decimal value of the text, or 0
/// when the text is not a decimal numeral (one optional leading `+`, then
/// digits) that fits a `usize`.
pub open spec fn spec_content_length_val(raw: Seq<char>) -> int {
    if spec_numeral_ok(raw, usize::MAX as int) {
        spec_numeral_val(raw)
    } else {
        0
    }
}

/// A Host value splits at the first colon; the digits up to the next colon
/// (or the end) are the port when they name a `u16`, else the port is absent.
pub open spec fn spec_parse_host(raw: Seq<char>) -> HeaderValueView {
    match spec_find(raw, ':') {
        None => HeaderValueView::Host(raw, None),
        Some(i) => {
            let rest = raw.subrange(i + 1, raw.len() as int);
            let seg = match spec_find(rest, ':') {
                None => rest,
                Some(j) => rest.take(j),
            };
            HeaderValueView::Host(
                raw.take(i),
                if spec_numeral_ok(seg, u16::MAX as int) {
                    Some(spec_numeral_val(seg) as u16)
                } else {
                    None
                },
            )
        },
    }
}

/// A Connection value matched without regard to case.
pub open spec fn spec_parse_connection(raw: Seq<char>) -> ConnectionView {
    if lower_seq(raw) == lower_seq("close"@) {
        ConnectionView::Close
    } else if lower_seq(raw) == lower_seq("keep-alive"@) {
        ConnectionView::KeepAlive
    } else if lower_seq(raw) == lower_seq("upgrade"@) {
        ConnectionView::Upgrade
    } else {
        ConnectionView::Custom(raw)
    }
}

/// How a raw value is typed under each name. Parsing is total: nothing
/// here ever fails, a malformed number merely degrades.
pub open spec fn spec_parse_value(name: &HttpHeaderName, raw: Seq<char>) -> HeaderValueView {
    match name {
        HttpHeaderName::ContentLength => HeaderValueView::ContentLength(
            spec_content_length_val(raw),
        ),
        HttpHeaderName::ContentType => HeaderValueView::ContentType(raw),
        HttpHeaderName::Host => spec_parse_host(raw),
        HttpHeaderName::Connection => HeaderValueView::Connection(spec_parse_connection(raw)),
        _ => HeaderValueView::Raw(raw),
    }
}

/// Canonical wire text of a Connection value.
pub open spec fn spec_render_connection(c: ConnectionView) -> Seq<char> {
    match c {
        ConnectionView::Close => "close"@,
        ConnectionView::KeepAlive => "keep-alive"@,
        ConnectionView::Upgrade => "upgrade"@,
        ConnectionView::Custom(s) => s,
    }
}

/// Wire text of a typed value. A Host with no port renders with port 80.
pub open spec fn spec_render_value(v: HeaderValueView) -> Seq<char> {
    match v {
        HeaderValueView::ContentLength(n) => spec_dec(n),
        HeaderValueView::ContentType(s) => s,
        HeaderValueView::Host(h, p) => h + seq![':'] + spec_dec(
            match p {
                Some(pp) => pp as int,
                None => 80,
            },
        ),
        HeaderValueView::Connection(c) => spec_render_connection(c),
        HeaderValueView::Raw(s) => s,
    }
}

impl HttpHeaderValue {
    fn parse_host(value: &str) -> (r: HttpHeaderValue)
        ensures
            r@ == spec_parse_host(value@),
    {
        proof {
            lemma_spec_find(value@, ':');
        }
        let len = value.unicode_len();
        match find_char(value, ':') {
            None => {
                proof {
                    assert(spec_find(value@, ':') is None);
                }
                HttpHeaderValue::Host(String::from_str(value), None)
            },
            Some(i) => {
                proof {
                    assert(spec_find(value@, ':') == Some(i as int));
                }
                let host = value.substring_char(0, i);
                let rest = value.substring_char(i + 1, len);
                proof {
                    lemma_spec_find(rest@, ':');
                }
                let seg = match find_char(rest, ':') {
                    None => {
                        proof {
                            assert(spec_find(rest@, ':') is None);
                        }
                        rest
                    },
                    Some(j) => {
                        proof {
                            assert(spec_find(rest@, ':') == Some(j as int));
                            assert(rest@.subrange(0, j as int) =~= rest@.take(j as int));
                        }
                        rest.substring_char(0, j)
                    },
                };
                let port = parse_u16(seg);
                proof {
                    assert(value@.subrange(0, i as int) =~= value@.take(i as int));
                }
                HttpHeaderValue::Host(String::from_str(host), port)
            },
        }
    }

    /// How a raw value is typed under `name`; total, never fails.
    pub fn parse(name: &HttpHeaderName, value: &str) -> (r: HttpHeaderValue)
        ensures
            r@ == spec_parse_value(name, value@),
    {
        match name {
            HttpHeaderName::ContentLength => match parse_usize(value) {
                Some(n) => HttpHeaderValue::ContentLength(n),
                None => HttpHeaderValue::ContentLength(0),
            },
            HttpHeaderName::ContentType => HttpHeaderValue::ContentType(String::from_str(value)),
            HttpHeaderName::Host => Self::parse_host(value),
            HttpHeaderName::Connection => {
                if str_eq_ignore_case(value, "close") {
                    HttpHeaderValue::Connection(ConnectionHeaderValue::Close)
                } else if str_eq_ignore_case(value, "keep-alive") {
                    HttpHeaderValue::Connection(ConnectionHeaderValue::KeepAlive)
                } else if str_eq_ignore_case(value, "upgrade") {
                    HttpHeaderValue::Connection(ConnectionHeaderValue::Upgrade)
                } else {
                    HttpHeaderValue::Connection(
                        ConnectionHeaderValue::Custom(String::from_str(value)),
                    )
                }
            },
            _ => HttpHeaderValue::Raw(String::from_str(value)),
        }
    }

    /// The wire text this value renders to.
    pub fn as_str(&self) -> (r: String)
        ensures
            r@ == spec_render_value(self@),
    {
        match self {
            HttpHeaderValue::ContentLength(cl) => usize_to_string(*cl),
            HttpHeaderValue::ContentType(ct) => ct.clone(),
            HttpHeaderValue::Host(a, p) => {
                let mut out = a.clone();
                out.append(":");
                let port: u16 = match p {
                    Some(v) => *v,
                    None => 80,
                };
                let digits = usize_to_string(port as usize);
                out.append(digits.as_str());
                proof {
                    reveal_strlit(":");
                    assert(":"@ =~= seq![':']);
                }
                out
            },
            HttpHeaderValue::Connection(c) => c.as_str(),
            HttpHeaderValue::Raw(s) => s.clone(),
        }
    }
}

impl ConnectionHeaderValue {
    /// The canonical wire text of this Connection value.
    pub fn as_str(&self) -> (r: String)
        ensures
            r@ == spec_render_connection(self@),
    {
        match self {
            ConnectionHeaderValue::Close => String::from_str("close"),
            ConnectionHeaderValue::KeepAlive => String::from_str("keep-alive"),
            ConnectionHeaderValue::Upgrade => String::from_str("upgrade"),
            ConnectionHeaderValue::Custom(s) => s.clone(),
        }
    }
}

// ---- semantic round trips ----

/// Re-rendering a decoded Content-Length value and decoding it again
/// yields the same number: the table is semantically stable for
/// Content-Length.
pub proof fn lemma_content_length_round_trip(n: int)
    requires
        0 <= n <= usize::MAX,
    ensures
        spec_render_value(HeaderValueView::ContentLength(n)) == spec_dec(n),
        spec_content_length_val(spec_dec(n)) == n,
{
    lemma_dec_round_trip(n);
    assert(is_digit_char(spec_dec(n)[0]));
    assert(spec_digits(spec_dec(n)) == spec_dec(n));
}

/// Re-rendering a decoded Host value with an explicit port and decoding
/// it again yields the same host and port, provided the host itself holds
/// no colon. (A host that arrived without a port renders with port 80, so
/// only the port-carrying form round-trips exactly.)
pub proof fn lemma_host_round_trip(h: Seq<char>, p: u16)
    requires
        forall|i: int| 0 <= i < h.len() ==> h[i] != ':',
    ensures
        spec_parse_host(spec_render_value(HeaderValueView::Host(h, Some(p)))) ==
            HeaderValueView::Host(h, Some(p)),
{
    let d = spec_dec(p as int);
    lemma_dec_round_trip(p as int);
    let raw = h + seq![':'] + d;
    assert(spec_render_value(HeaderValueView::Host(h, Some(p))) == raw);
    assert(raw[h.len() as int] == ':');
    assert(forall|j: int| 0 <= j < h.len() ==> raw[j] == h[j]);
    lemma_spec_find(raw, ':');
    let found = spec_find(raw, ':');
    assert(found is Some) by {
        if found is None {
            assert(raw[h.len() as int] != ':');
        }
    }
    let k = found->0;
    assert(k == h.len()) by {
        if k < h.len() {
            assert(raw[k] == h[k]);
        }
        if k > h.len() {
            assert(raw[h.len() as int] != ':');
        }
    }
    let rest = raw.subrange(k + 1, raw.len() as int);
    assert(rest =~= d);
    assert(forall|j: int| 0 <= j < d.len() ==> is_digit_char(#[trigger] d[j]) && d[j] != ':');
    lemma_spec_find(rest, ':');
    match spec_find(rest, ':') {
        Some(j) => {
            assert(rest[j] == ':');
            assert(is_digit_char(d[j]));
            assert(false);
        },
        None => {},
    }
    assert(raw.take(k) =~= h);
    assert(is_digit_char(d[0]));
    assert(spec_digits(d) == d);
    assert(dec_val(d) == p as int);
    assert((dec_val(d) as u16) == p);
}

/// Re-rendering a decoded Connection value and decoding it again yields
/// the same value for the three canonical forms.
pub proof fn lemma_connection_round_trip()
    ensures
        spec_parse_connection(spec_render_connection(ConnectionView::Close))
            == ConnectionView::Close,
        spec_parse_connection(spec_render_connection(ConnectionView::KeepAlive))
            == ConnectionView::KeepAlive,
        spec_parse_connection(spec_render_connection(ConnectionView::Upgrade))
            == ConnectionView::Upgrade,
{
    reveal_strlit("close");
    reveal_strlit("keep-alive");
    reveal_strlit("upgrade");
    assert(lower_seq("close"@).len() == 5);
    assert(lower_seq("keep-alive"@).len() == 10);
    assert(lower_seq("upgrade"@).len() == 7);
}

// ---- the header table ----

/// The table a message's headers are collected in: for each name, the
/// values seen for it in arrival order. Distinct names keep the order in
/// which they first arrived.
#[derive(Debug)]
pub struct HttpHeaders {
    pub values: Vec<(HttpHeaderName, Vec<HttpHeaderValue>)>,
}

pub open spec fn vals_view(v: Seq<HttpHeaderValue>) -> Seq<HeaderValueView> {
    Seq::new(v.len(), |i: int| v[i]@)
}

impl View for HttpHeaders {
    type V = Seq<(Seq<char>, Seq<HeaderValueView>)>;

    open spec fn view(&self) -> Seq<(Seq<char>, Seq<HeaderValueView>)> {
        Seq::new(self.values@.len(), |i: int| (self.values@[i].0@, vals_view(self.values@[i].1@)))
    }
}

/// The values stored under the first entry whose name has the same
/// canonical form as `name`, if there is one.
pub open spec fn spec_lookup(
    h: Seq<(Seq<char>, Seq<HeaderValueView>)>,
    name: Seq<char>,
) -> Option<Seq<HeaderValueView>>
    decreases h.len(),
{
    if h.len() == 0 {
        None
    } else if name_key(h[0].0) == name_key(name) {
        Some(h[0].1)
    } else {
        spec_lookup(h.drop_first(), name)
    }
}

/// Adding a value appends it to the entry whose name matches canonically,
/// or opens a new entry at the end.
pub open spec fn spec_add(
    h: Seq<(Seq<char>, Seq<HeaderValueView>)>,
    name: Seq<char>,
    v: HeaderValueView,
) -> Seq<(Seq<char>, Seq<HeaderValueView>)>
    decreases h.len(),
{
    if h.len() == 0 {
        seq![(name, seq![v])]
    } else if name_key(h[0].0) == name_key(name) {
        seq![(h[0].0, h[0].1.push(v))] + h.drop_first()
    } else {
        seq![h[0]] + spec_add(h.drop_first(), name, v)
    }
}

proof fn lemma_spec_add_found(
    h: Seq<(Seq<char>, Seq<HeaderValueView>)>,
    name: Seq<char>,
    v: HeaderValueView,
    k: int,
)
    requires
        0 <= k < h.len(),
        name_key(h[k].0) == name_key(name),
        forall|i: int| 0 <= i < k ==> name_key(h[i].0) != name_key(name),
    ensures
        spec_add(h, name, v) =~= h.update(k, (h[k].0, h[k].1.push(v))),
    decreases k,
{
    if k == 0 {
        assert(spec_add(h, name, v) =~= h.update(0, (h[0].0, h[0].1.push(v))));
    } else {
        assert(forall|i: int|
            0 <= i < k - 1 ==> h.drop_first()[i] == h[i + 1] && name_key(h.drop_first()[i].0)
                != name_key(name));
        assert(h.drop_first()[k - 1] == h[k]);
        lemma_spec_add_found(h.drop_first(), name, v, k - 1);
        assert(spec_add(h, name, v) =~= seq![h[0]] + h.drop_first().update(
            k - 1,
            (h[k].0, h[k].1.push(v)),
        ));
    }
}

proof fn lemma_spec_add_missing(
    h: Seq<(Seq<char>, Seq<HeaderValueView>)>,
    name: Seq<char>,
    v: HeaderValueView,
)
    requires
        forall|i: int| 0 <= i < h.len() ==> name_key(h[i].0) != name_key(name),
    ensures
        spec_add(h, name, v) =~= h.push((name, seq![v])),
    decreases h.len(),
{
    if h.len() > 0 {
        assert(forall|i: int|
            0 <= i < h.drop_first().len() ==> h.drop_first()[i] == h[i + 1] && name_key(
                h.drop_first()[i].0,
            ) != name_key(name));
        lemma_spec_add_missing(h.drop_first(), name, v);
        assert(spec_add(h, name, v) =~= seq![h[0]] + h.drop_first().push((name, seq![v])));
    }
}

impl HttpHeaders {
    /// Every entry has a distinct canonical name and at least one value.
    pub open spec fn wf(&self) -> bool {
        &&& forall|i: int, j: int|
            0 <= i < j < self@.len() ==> name_key(self@[i].0) != name_key(self@[j].0)
        &&& forall|i: int| 0 <= i < self@.len() ==> self@[i].1.len() > 0
    }

    pub fn new() -> (r: HttpHeaders)
        ensures
            r@ =~= Seq::<(Seq<char>, Seq<HeaderValueView>)>::empty(),
            r.wf(),
    {
        HttpHeaders { values: Vec::new() }
    }

    /// Types `value_str` under `name` and records it: appended to the
    /// matching entry, or opening a new one at the end.
    pub fn add(&mut self, name: HttpHeaderName, value_str: &str)
        requires
            old(self).wf(),
        ensures
            final(self)@ == spec_add(old(self)@, name@, spec_parse_value(&name, value_str@)),
            final(self).wf(),
    {
        let val = HttpHeaderValue::parse(&name, value_str);
        let n = self.values.len();
        let mut idx: usize = 0;
        while idx < n
            invariant
                self == old(self),
                old(self).wf(),
                n == self.values.len(),
                idx <= n,
                val@ == spec_parse_value(&name, value_str@),
                forall|i: int| 0 <= i < idx ==> name_key(self@[i].0) != name_key(name@),
            decreases n - idx,
        {
            if self.values[idx].0 == name {
                let mut entry = self.values.remove(idx);
                entry.1.push(val);
                self.values.insert(idx, entry);
                proof {
                    lemma_spec_add_found(
                        old(self)@,
                        name@,
                        spec_parse_value(&name, value_str@),
                        idx as int,
                    );
                    assert(self@ =~~= old(self)@.update(
                        idx as int,
                        (old(self)@[idx as int].0, old(self)@[idx as int].1.push(val@)),
                    ));
                }
                return;
            }
            idx = idx + 1;
        }
        self.values.push((name, vec![val]));
        proof {
            lemma_spec_add_missing(old(self)@, name@, spec_parse_value(&name, value_str@));
            assert(self@ =~~= old(self)@.push((name@, seq![val@])));
        }
    }

    /// All values recorded for `name`, by canonical-form match.
    pub fn get(&self, name: &HttpHeaderName) -> (r: Option<&Vec<HttpHeaderValue>>)
        ensures
            match r {
                Some(vs) => spec_lookup(self@, name@) == Some(vals_view(vs@)),
                None => spec_lookup(self@, name@) is None,
            },
    {
        let n = self.values.len();
        proof {
            assert(self@.skip(0) =~= self@);
        }
        let mut idx: usize = 0;
        while idx < n
            invariant
                n == self.values.len(),
                idx <= n,
                spec_lookup(self@, name@) == spec_lookup(self@.skip(idx as int), name@),
            decreases n - idx,
        {
            proof {
                assert(self@.skip(idx as int)[0] == self@[idx as int]);
                assert(self@.skip(idx as int).drop_first() =~= self@.skip(idx as int + 1));
            }
            if self.values[idx].0 == *name {
                return Some(&self.values[idx].1);
            }
            idx = idx + 1;
        }
        None
    }
}

/// Setting a value replaces everything under the matching entry, or opens
/// a new entry at the end; the entry's original spelling is kept.
pub open spec fn spec_set(
    h: Seq<(Seq<char>, Seq<HeaderValueView>)>,
    name: Seq<char>,
    v: HeaderValueView,
) -> Seq<(Seq<char>, Seq<HeaderValueView>)>
    decreases h.len(),
{
    if h.len() == 0 {
        seq![(name, seq![v])]
    } else if name_key(h[0].0) == name_key(name) {
        seq![(h[0].0, seq![v])] + h.drop_first()
    } else {
        seq![h[0]] + spec_set(h.drop_first(), name, v)
    }
}

proof fn lemma_spec_set_found(
    h: Seq<(Seq<char>, Seq<HeaderValueView>)>,
    name: Seq<char>,
    v: HeaderValueView,
    k: int,
)
    requires
        0 <= k < h.len(),
        name_key(h[k].0) == name_key(name),
        forall|i: int| 0 <= i < k ==> name_key(h[i].0) != name_key(name),
    ensures
        spec_set(h, name, v) =~= h.update(k, (h[k].0, seq![v])),
    decreases k,
{
    if k == 0 {
        assert(spec_set(h, name, v) =~= h.update(0, (h[0].0, seq![v])));
    } else {
        assert(forall|i: int|
            0 <= i < k - 1 ==> h.drop_first()[i] == h[i + 1] && name_key(h.drop_first()[i].0)
                != name_key(name));
        assert(h.drop_first()[k - 1] == h[k]);
        lemma_spec_set_found(h.drop_first(), name, v, k - 1);
        assert(spec_set(h, name, v) =~= seq![h[0]] + h.drop_first().update(
            k - 1,
            (h[k].0, seq![v]),
        ));
    }
}

proof fn lemma_spec_set_missing(
    h: Seq<(Seq<char>, Seq<HeaderValueView>)>,
    name: Seq<char>,
    v: HeaderValueView,
)
    requires
        forall|i: int| 0 <= i < h.len() ==> name_key(h[i].0) != name_key(name),
    ensures
        spec_set(h, name, v) =~= h.push((name, seq![v])),
    decreases h.len(),
{
    if h.len() > 0 {
        assert(forall|i: int|
            0 <= i < h.drop_first().len() ==> h.drop_first()[i] == h[i + 1] && name_key(
                h.drop_first()[i].0,
            ) != name_key(name));
        lemma_spec_set_missing(h.drop_first(), name, v);
        assert(spec_set(h, name, v) =~= seq![h[0]] + h.drop_first().push((name, seq![v])));
    }
}

impl HttpHeaders {
    /// Overwrites whatever `name` held with the one value `val`; the
    /// server uses this to inject Content-Length and Connection.
    pub fn set(&mut self, name: HttpHeaderName, val: HttpHeaderValue)
        requires
            old(self).wf(),
        ensures
            final(self)@ == spec_set(old(self)@, name@, val@),
            final(self).wf(),
    {
        let n = self.values.len();
        let mut idx: usize = 0;
        while idx < n
            invariant
                self == old(self),
                old(self).wf(),
                n == self.values.len(),
                idx <= n,
                forall|i: int| 0 <= i < idx ==> name_key(self@[i].0) != name_key(name@),
            decreases n - idx,
        {
            if self.values[idx].0 == name {
                let ghost v = val@;
                let entry = self.values.remove(idx);
                let mut vals: Vec<HttpHeaderValue> = Vec::new();
                vals.push(val);
                self.values.insert(idx, (entry.0, vals));
                proof {
                    lemma_spec_set_found(old(self)@, name@, v, idx as int);
                    assert(vals_view(vals@) =~= seq![v]);
                    assert(self@ =~~= old(self)@.update(
                        idx as int,
                        (old(self)@[idx as int].0, seq![v]),
                    ));
                }
                return;
            }
            idx = idx + 1;
        }
        let ghost v = val@;
        self.values.push((name, vec![val]));
        proof {
            lemma_spec_set_missing(old(self)@, name@, v);
            assert(self@ =~~= old(self)@.push((name@, seq![v])));
        }
    }
}

// ---- singleton accessors ----

/// First value under `name` when it is a `Raw` value.
pub open spec fn spec_get_one_raw(
    h: Seq<(Seq<char>, Seq<HeaderValueView>)>,
    name: Seq<char>,
) -> Option<Seq<char>> {
    match spec_lookup(h, name) {
        Some(vs) => if vs.len() > 0 {
            match vs[0] {
                HeaderValueView::Raw(s) => Some(s),
                _ => None,
            }
        } else {
            None
        },
        None => None,
    }
}

/// First Content-Length value, when one was recorded.
pub open spec fn spec_content_length(h: Seq<(Seq<char>, Seq<HeaderValueView>)>) -> Option<int> {
    match spec_lookup(h, "Content-Length"@) {
        Some(vs) => if vs.len() > 0 {
            match vs[0] {
                HeaderValueView::ContentLength(n) => Some(n),
                _ => None,
            }
        } else {
            None
        },
        None => None,
    }
}

/// First Content-Type value, when one was recorded.
pub open spec fn spec_content_type(h: Seq<(Seq<char>, Seq<HeaderValueView>)>) -> Option<
    Seq<char>,
> {
    match spec_lookup(h, "Content-Type"@) {
        Some(vs) => if vs.len() > 0 {
            match vs[0] {
                HeaderValueView::ContentType(s) => Some(s),
                _ => None,
            }
        } else {
            None
        },
        None => None,
    }
}

/// First Host value, when one was recorded.
pub open spec fn spec_host(h: Seq<(Seq<char>, Seq<HeaderValueView>)>) -> Option<
    (Seq<char>, Option<u16>),
> {
    match spec_lookup(h, "Host"@) {
        Some(vs) => if vs.len() > 0 {
            match vs[0] {
                HeaderValueView::Host(hh, p) => Some((hh, p)),
                _ => None,
            }
        } else {
            None
        },
        None => None,
    }
}

impl HttpHeaders {
    /// First value under `name`, when it is a `Raw` value.
    pub fn get_one_raw(&self, name: &HttpHeaderName) -> (r: Option<&str>)
        ensures
            match r {
                Some(s) => spec_get_one_raw(self@, name@) == Some(s@),
                None => spec_get_one_raw(self@, name@) is None,
            },
    {
        match self.get(name) {
            Some(vs) => if vs.len() > 0 {
                match &vs[0] {
                    HttpHeaderValue::Raw(s) => Some(s.as_str()),
                    _ => None,
                }
            } else {
                None
            },
            None => None,
        }
    }

    /// The first Content-Length value, when one was recorded.
    pub fn content_length(&self) -> (r: Option<usize>)
        ensures
            match r {
                Some(n) => spec_content_length(self@) == Some(n as int),
                None => spec_content_length(self@) is None,
            },
    {
        let name = HttpHeaderName::ContentLength;
        match self.get(&name) {
            Some(vs) => if vs.len() > 0 {
                match &vs[0] {
                    HttpHeaderValue::ContentLength(len) => Some(*len),
                    _ => None,
                }
            } else {
                None
            },
            None => None,
        }
    }

    /// The first Content-Type value, when one was recorded.
    pub fn content_type(&self) -> (r: Option<&str>)
        ensures
            match r {
                Some(s) => spec_content_type(self@) == Some(s@),
                None => spec_content_type(self@) is None,
            },
    {
        let name = HttpHeaderName::ContentType;
        match self.get(&name) {
            Some(vs) => if vs.len() > 0 {
                match &vs[0] {
                    HttpHeaderValue::ContentType(t) => Some(t.as_str()),
                    _ => None,
                }
            } else {
                None
            },
            None => None,
        }
    }

    /// The first Host value, when one was recorded.
    pub fn host(&self) -> (r: Option<(&str, Option<u16>)>)
        ensures
            match r {
                Some(hp) => spec_host(self@) == Some((hp.0@, hp.1)),
                None => spec_host(self@) is None,
            },
    {
        let name = HttpHeaderName::Host;
        match self.get(&name) {
            Some(vs) => if vs.len() > 0 {
                match &vs[0] {
                    HttpHeaderValue::Host(h, p) => Some((h.as_str(), *p)),
                    _ => None,
                }
            } else {
                None
            },
            None => None,
        }
    }
}

// ---- rendering ----

/// One wire line per value under `name`: `<name>: <value>\r\n`.
pub open spec fn spec_render_lines(name: Seq<char>, vs: Seq<HeaderValueView>) -> Seq<char>
    decreases vs.len(),
{
    if vs.len() == 0 {
        Seq::empty()
    } else {
        name + ": "@ + spec_render_value(vs[0]) + "\r\n"@ + spec_render_lines(
            name,
            vs.drop_first(),
        )
    }
}

/// The wire text of a whole table: each entry's lines, in table order.
pub open spec fn spec_render_headers(h: Seq<(Seq<char>, Seq<HeaderValueView>)>) -> Seq<char>
    decreases h.len(),
{
    if h.len() == 0 {
        Seq::empty()
    } else {
        spec_render_lines(h[0].0, h[0].1) + spec_render_headers(h.drop_first())
    }
}

impl HttpHeaders {
    /// Renders every header as `<name>: <value>\r\n`, in table order.
    pub fn render(&self) -> (r: String)
        ensures
            r@ == spec_render_headers(self@),
    {
        let mut out = String::new();
        let n = self.values.len();
        proof {
            assert(self@.skip(0) =~= self@);
        }
        let mut i: usize = 0;
        while i < n
            invariant
                n == self.values.len(),
                i <= n,
                spec_render_headers(self@) == out@ + spec_render_headers(self@.skip(i as int)),
            decreases n - i,
        {
            proof {
                assert(self@.skip(i as int)[0] == self@[i as int]);
                assert(self@.skip(i as int).drop_first() =~= self@.skip(i as int + 1));
            }
            let m = self.values[i].1.len();
            proof {
                assert(self@[i as int].1.skip(0) =~= self@[i as int].1);
            }
            let mut j: usize = 0;
            while j < m
                invariant
                    n == self.values.len(),
                    i < n,
                    m == self.values[i as int].1.len(),
                    j <= m,
                    self@[i as int].1.len() == m,
                    spec_render_headers(self@) == out@ + spec_render_lines(
                        self@[i as int].0,
                        self@[i as int].1.skip(j as int),
                    ) + spec_render_headers(self@.skip(i as int + 1)),
                decreases m - j,
            {
                let ghost tail = self@[i as int].1.skip(j as int);
                proof {
                    assert(tail[0] == self@[i as int].1[j as int]);
                    assert(tail.drop_first() =~= self@[i as int].1.skip(j as int + 1));
                    assert(self@[i as int].1[j as int] == self.values@[i as int].1@[j as int]@);
                }
                out.append(self.values[i].0.as_str());
                out.append(": ");
                let v = self.values[i].1[j].as_str();
                out.append(v.as_str());
                out.append("\r\n");
                j = j + 1;
            }
            i = i + 1;
        }
        proof {
            assert(self@.skip(n as int) =~= Seq::<(Seq<char>, Seq<HeaderValueView>)>::empty());
        }
        out
    }
}

} // verus!

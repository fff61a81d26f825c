//! The ways handling a connection can fail. Every one of them is fatal to
//! the single connection it occurred on, never to the whole server.

use vstd::prelude::*;

verus! {

#[derive(Debug, Clone, Copy, PartialEq, Eq, Structural)]
pub enum HttpError {
    /// The request line did not split into exactly three tokens, or the
    /// stream ended before any request line arrived.
    MalformedRequestLine,
    /// A header line held no colon separator.
    MalformedHeaderLine,
    /// The stream ended before Content-Length bytes of body arrived.
    TruncatedBody,
    /// No complete request arrived within the read window.
    ConnectionTimeout,
    /// A socket read or write failed.
    IoError,
    /// An external content source (such as the not-found page) failed.
    ContentLookupError,
}

} // verus!

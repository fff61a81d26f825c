//! Core of a small HTTP/1.1 server: the typed header model, the message
//! codec (request decoding, response encoding), the router's dispatch
//! decisions, and the per-connection keep-alive state machine.
//!
//! Everything here is pure: the surrounding binary owns the sockets and
//! feeds bytes and events in, and writes the produced bytes out.

pub mod error;
pub mod headers;
pub mod machine;
pub mod method;
pub mod request;
pub mod response;
pub mod router;
pub mod server;
pub mod text;

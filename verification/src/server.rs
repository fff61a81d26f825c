//! What the listener is configured with: the address to bind and the
//! route table. Binding, accepting, and the per-connection I/O loop live
//! in the surrounding program, which drives each accepted connection
//! through `machine::step`.

use vstd::prelude::*;

use crate::router::Router;

verus! {

/// Command-line configuration owned by the startup layer: whether
/// connections may stay open between requests.
#[derive(Debug, Clone, Copy)]
pub struct Args {
    pub use_keep_alive: bool,
}

/// One server: where to bind, and the routes it serves.
pub struct Server {
    pub host: String,
    pub port: u16,
    pub router: Router,
}

impl Server {
    pub fn new(router: Router, host: &str, port: u16) -> (r: Server)
        ensures
            r.host@ == host@,
            r.port == port,
            r.router == router,
    {
        Server { host: String::from_str(host), router, port }
    }
}

} // verus!

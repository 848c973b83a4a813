//! Configuration of the Alpaca server.

use vstd::prelude::*;

verus! {

/// How the server is to be set up: the port it listens on (0 lets the
/// system pick a free one).
#[derive(Debug, Clone, Copy, PartialEq, Eq, Structural)]
pub struct ServerBuilder {
    pub port: u16,
}

impl ServerBuilder {
    /// A server on a port the system picks.
    pub fn new() -> (b: ServerBuilder)
        ensures
            b.port == 0,
    {
        ServerBuilder { port: 0 }
    }

    /// The same server on `port`.
    pub fn with_port(self, port: u16) -> (b: ServerBuilder)
        ensures
            b.port == port,
    {
        ServerBuilder { port }
    }
}

impl Default for ServerBuilder {
    fn default() -> (b: ServerBuilder)
        ensures
            b.port == 0,
    {
        ServerBuilder::new()
    }
}

} // verus!

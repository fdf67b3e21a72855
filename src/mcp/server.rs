//! The protocol server value.

use vstd::prelude::*;

verus! {

/// The server exposing the engine to assistants.
pub struct RalphMcpServer {}

impl RalphMcpServer {
    pub fn new() -> Self {
        RalphMcpServer {}
    }
}

impl Default for RalphMcpServer {
    fn default() -> Self {
        RalphMcpServer::new()
    }
}

} // verus!

//! Entry point for building a connected orchestration client.

use vstd::prelude::*;

verus! {

/// Builder of a connected orchestration client. It holds no state: the
/// credentials are handed to the step that connects.
#[derive(Clone, Copy, Debug)]
pub struct OrchestrateConnection;

impl OrchestrateConnection {
    /// A fresh builder.
    pub fn new() -> (r: Self)
        ensures
            r == OrchestrateConnection,
    {
        OrchestrateConnection
    }
}

impl Default for OrchestrateConnection {
    fn default() -> (r: Self)
        ensures
            r == OrchestrateConnection,
    {
        OrchestrateConnection
    }
}

} // verus!

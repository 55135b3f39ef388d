//! Entry point for building a connected text-generation client.

use vstd::prelude::*;

verus! {

/// Builder of a connected text-generation client. It holds no state: the
/// credentials are handed to the step that connects.
#[derive(Clone, Copy, Debug)]
pub struct WatsonxConnection;

impl WatsonxConnection {
    /// A fresh builder.
    pub fn new() -> (r: Self)
        ensures
            r == WatsonxConnection,
    {
        WatsonxConnection
    }
}

impl Default for WatsonxConnection {
    fn default() -> (r: Self)
        ensures
            r == WatsonxConnection,
    {
        WatsonxConnection
    }
}

} // verus!

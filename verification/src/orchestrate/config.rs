//! Settings of the orchestration client.

use crate::text::{chars_of, joined, replace_all, replace_in, string_of};
use vstd::prelude::*;

verus! {

/// Settings of the orchestration client.
#[derive(Clone, Debug)]
pub struct OrchestrateConfig {
    /// Identifier of the service instance.
    pub instance_id: String,
    /// Region that hosts the instance.
    pub region: String,
    /// Base address of the API; a `{}` in it stands for the instance.
    pub base_url: String,
}

impl OrchestrateConfig {
    /// Settings for an instance in the default region.
    pub fn new(instance_id: String) -> (r: Self)
        ensures
            r.instance_id == instance_id,
            r.region@ == "us-south"@,
            r.base_url@ == "https://us-south.watson-orchestrate.cloud.ibm.com/api/v1/"@,
    {
        OrchestrateConfig {
            instance_id,
            region: "us-south".to_owned(),
            base_url: "https://us-south.watson-orchestrate.cloud.ibm.com/api/v1/".to_owned(),
        }
    }

    /// The base address with every `{}` replaced by the instance identifier.
    pub fn get_base_url(&self) -> (r: String)
        ensures
            r@ == replace_all(self.base_url@, "{}"@, self.instance_id@),
    {
        let base = chars_of(self.base_url.as_str());
        let hole = chars_of("{}");
        let instance = chars_of(self.instance_id.as_str());
        let filled = replace_in(&base, &hole, &instance);
        assert(filled@.subrange(0, filled.len() as int) =~= filled@);
        string_of(&filled, 0, filled.len())
    }

    /// The address of `path` below the base address.
    pub fn endpoint(&self, path: &str) -> (r: String)
        ensures
            r@ == replace_all(self.base_url@, "{}"@, self.instance_id@) + "/"@ + path@,
    {
        let base = self.get_base_url();
        let a = joined(base.as_str(), "/");
        joined(a.as_str(), path)
    }
}

} // verus!

//! Model identifiers and service defaults.

pub mod models;

use vstd::prelude::*;

verus! {

/// Model used when the caller names none.
pub const DEFAULT_MODEL: &'static str = "ibm/granite-4-h-small";

/// Largest number of tokens that a request may ask for (128k).
pub const MAX_TOKENS_LIMIT: u32 = 131_072;

/// Number of tokens requested when the caller sets none.
pub const DEFAULT_MAX_TOKENS: u32 = 8192;

/// Conservative number of tokens for quick answers.
pub const QUICK_RESPONSE_MAX_TOKENS: u32 = 2048;

/// Default deadline of a request, in seconds.
pub const DEFAULT_TIMEOUT_SECS: u64 = 120;

/// Default version of the service API.
pub const DEFAULT_API_VERSION: &'static str = "2023-05-29";

/// Default host of the identity service.
pub const DEFAULT_IAM_URL: &'static str = "iam.cloud.ibm.com";

/// Default base address of the service API.
pub const DEFAULT_API_URL: &'static str = "https://us-south.ml.cloud.ibm.com";

} // verus!

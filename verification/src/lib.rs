//! Client-side core for a hosted text-generation service and its agent
//! orchestration companion: incremental decoding of event streams, fragment
//! extraction, completion post-processing and batch aggregation.

pub mod batch;
pub mod client;
pub mod config;
pub mod connection;
pub mod error;
pub mod json;
pub mod models;
pub mod orchestrate;
pub mod responses;
pub mod sse;
pub mod text;
pub mod types;

pub use batch::{BatchGenerationResult, BatchItemResult, BatchRequest};
pub use config::WatsonxConfig;
pub use connection::WatsonxConnection;
pub use error::{Error, Result};
pub use orchestrate::{OrchestrateConfig, OrchestrateConnection};
pub use types::{
    ChatCompletionConfig, ChatCompletionResult, ChatMessage, Float32, GenerationAttempt,
    GenerationConfig, GenerationResult, ModelInfo, RetryConfig,
};
pub use models::{
    DEFAULT_API_URL, DEFAULT_API_VERSION, DEFAULT_IAM_URL, DEFAULT_MAX_TOKENS, DEFAULT_MODEL,
    DEFAULT_TIMEOUT_SECS, MAX_TOKENS_LIMIT, QUICK_RESPONSE_MAX_TOKENS,
};

//! Requests, settings and results of text generation.

use crate::models::{DEFAULT_MAX_TOKENS, DEFAULT_MODEL, MAX_TOKENS_LIMIT, QUICK_RESPONSE_MAX_TOKENS};
use std::time::Duration;
use vstd::prelude::*;

verus! {

/// The whole seconds of a duration.
pub uninterp spec fn whole_seconds(d: Duration) -> u64;

/// `Duration::from_secs` makes a duration of that many whole seconds.
pub assume_specification[ Duration::from_secs ](secs: u64) -> (d: Duration)
    ensures
        whole_seconds(d) == secs,
;

/// A copy of a duration is the same duration.
pub assume_specification[ <Duration as Clone>::clone ](d: &Duration) -> (r: Duration)
    ensures
        r == *d,
;

/// A 32-bit floating-point number, held by its IEEE 754 bit pattern. The
/// library carries such numbers from the caller to the request and never
/// computes with them.
#[derive(Clone, Copy, Debug, PartialEq, Eq)]
pub struct Float32 {
    /// The bit pattern of the number.
    pub bits: u32,
}

impl Float32 {
    /// The number with the given bit pattern.
    pub fn from_bits(bits: u32) -> (r: Self)
        ensures
            r.bits == bits,
    {
        Float32 { bits }
    }

    /// The bit pattern of the number.
    pub fn to_bits(self) -> (r: u32)
        ensures
            r == self.bits,
    {
        self.bits
    }
}

/// The bit pattern of 1.0.
pub const ONE: u32 = 0x3F80_0000;

/// The bit pattern of the number nearest to 1.1.
pub const ONE_AND_A_TENTH: u32 = 0x3F8C_CCCD;

/// The bit pattern of the number nearest to 0.7.
pub const SEVEN_TENTHS: u32 = 0x3F33_3333;

/// The bit pattern of 0.0.
pub const ZERO: u32 = 0;

/// Settings of a text-generation request.
#[derive(Clone, Debug)]
pub struct GenerationConfig {
    /// Model that generates.
    pub model_id: String,
    /// Deadline of the request.
    pub timeout: Duration,
    /// Largest number of tokens to generate.
    pub max_tokens: u32,
    /// Top-k sampling.
    pub top_k: Option<u32>,
    /// Top-p sampling.
    pub top_p: Option<Float32>,
    /// Texts at which generation stops.
    pub stop_sequences: Vec<String>,
    /// Sampling temperature.
    pub temperature: Option<Float32>,
    /// Penalty on repetition.
    pub repetition_penalty: Option<Float32>,
}

impl GenerationConfig {
    /// Whether every setting but the deadline and the token limit is the
    /// default.
    pub open spec fn has_default_sampling(&self) -> bool {
        &&& self.model_id@ == DEFAULT_MODEL@
        &&& self.top_k == Some(50u32)
        &&& self.top_p == Some(Float32 { bits: ONE })
        &&& self.stop_sequences@.len() == 0
        &&& self.temperature is None
        &&& self.repetition_penalty == Some(Float32 { bits: ONE_AND_A_TENTH })
    }

    /// Default settings with the given deadline in seconds and token limit.
    fn preset(secs: u64, max_tokens: u32) -> (r: Self)
        ensures
            r.has_default_sampling(),
            whole_seconds(r.timeout) == secs,
            r.max_tokens == max_tokens,
    {
        GenerationConfig {
            model_id: DEFAULT_MODEL.to_owned(),
            timeout: Duration::from_secs(secs),
            max_tokens,
            top_k: Some(50),
            top_p: Some(Float32 { bits: ONE }),
            stop_sequences: Vec::new(),
            temperature: None,
            repetition_penalty: Some(Float32 { bits: ONE_AND_A_TENTH }),
        }
    }

    /// The same settings with another token limit, capped at the largest
    /// that the service accepts.
    pub fn with_max_tokens(self, max_tokens: u32) -> (r: Self)
        ensures
            r == (GenerationConfig {
                max_tokens: if max_tokens <= MAX_TOKENS_LIMIT {
                    max_tokens
                } else {
                    MAX_TOKENS_LIMIT
                },
                ..self
            }),
    {
        let mut r = self;
        r.max_tokens = if max_tokens <= MAX_TOKENS_LIMIT {
            max_tokens
        } else {
            MAX_TOKENS_LIMIT
        };
        r
    }

    /// Settings for long answers: the largest token limit and five minutes.
    pub fn long_form() -> (r: Self)
        ensures
            r.has_default_sampling(),
            whole_seconds(r.timeout) == 300,
            r.max_tokens == MAX_TOKENS_LIMIT,
    {
        Self::preset(300, MAX_TOKENS_LIMIT)
    }

    /// Settings for quick answers: a small token limit and thirty seconds.
    pub fn quick_response() -> (r: Self)
        ensures
            r.has_default_sampling(),
            whole_seconds(r.timeout) == 30,
            r.max_tokens == QUICK_RESPONSE_MAX_TOKENS,
    {
        Self::preset(30, QUICK_RESPONSE_MAX_TOKENS)
    }

    /// The same settings with another model.
    pub fn with_model(self, model_id: &str) -> (r: Self)
        ensures
            r.model_id@ == model_id@,
            r == (GenerationConfig { model_id: r.model_id, ..self }),
    {
        let mut r = self;
        r.model_id = model_id.to_owned();
        r
    }

    /// The same settings with another deadline.
    pub fn with_timeout(self, timeout: Duration) -> (r: Self)
        ensures
            r == (GenerationConfig { timeout, ..self }),
    {
        let mut r = self;
        r.timeout = timeout;
        r
    }

    /// The same settings with top-k sampling.
    pub fn with_top_k(self, top_k: u32) -> (r: Self)
        ensures
            r == (GenerationConfig { top_k: Some(top_k), ..self }),
    {
        let mut r = self;
        r.top_k = Some(top_k);
        r
    }

    /// The same settings with top-p sampling.
    pub fn with_top_p(self, top_p: Float32) -> (r: Self)
        ensures
            r == (GenerationConfig { top_p: Some(top_p), ..self }),
    {
        let mut r = self;
        r.top_p = Some(top_p);
        r
    }

    /// The same settings with other stop texts.
    pub fn with_stop_sequences(self, stop_sequences: Vec<String>) -> (r: Self)
        ensures
            r == (GenerationConfig { stop_sequences, ..self }),
    {
        let mut r = self;
        r.stop_sequences = stop_sequences;
        r
    }

    /// The same settings with a penalty on repetition.
    pub fn with_repetition_penalty(self, penalty: Float32) -> (r: Self)
        ensures
            r == (GenerationConfig { repetition_penalty: Some(penalty), ..self }),
    {
        let mut r = self;
        r.repetition_penalty = Some(penalty);
        r
    }
}

impl Default for GenerationConfig {
    /// The default model, two minutes, the default token limit.
    fn default() -> (r: Self)
        ensures
            r.has_default_sampling(),
            whole_seconds(r.timeout) == 120,
            r.max_tokens == DEFAULT_MAX_TOKENS,
    {
        Self::preset(120, DEFAULT_MAX_TOKENS)
    }
}

/// The answer to a text-generation request.
#[derive(Clone, Debug)]
pub struct GenerationResult {
    /// The generated text.
    pub text: String,
    /// Model that generated it.
    pub model_id: String,
    /// Number of tokens used, if known.
    pub tokens_used: Option<u32>,
    /// Quality score, if one was computed.
    pub quality_score: Option<Float32>,
    /// Identifier of the request, for tracking.
    pub request_id: Option<String>,
}

impl GenerationResult {
    /// An answer of which only the text and the model are known.
    pub fn new(text: String, model_id: String) -> (r: Self)
        ensures
            r == (GenerationResult {
                text,
                model_id,
                tokens_used: None,
                quality_score: None,
                request_id: None,
            }),
    {
        GenerationResult { text, model_id, tokens_used: None, quality_score: None, request_id: None }
    }

    /// The same answer with the number of tokens used.
    pub fn with_tokens_used(self, tokens: u32) -> (r: Self)
        ensures
            r == (GenerationResult { tokens_used: Some(tokens), ..self }),
    {
        let mut r = self;
        r.tokens_used = Some(tokens);
        r
    }

    /// The same answer with a quality score.
    pub fn with_quality_score(self, score: Float32) -> (r: Self)
        ensures
            r == (GenerationResult { quality_score: Some(score), ..self }),
    {
        let mut r = self;
        r.quality_score = Some(score);
        r
    }

    /// The same answer with the identifier of its request.
    pub fn with_request_id(self, request_id: String) -> (r: Self)
        ensures
            r == (GenerationResult { request_id: Some(request_id), ..self }),
    {
        let mut r = self;
        r.request_id = Some(request_id);
        r
    }
}

/// Settings for trying a request again.
#[derive(Clone, Debug)]
pub struct RetryConfig {
    /// Largest number of attempts.
    pub max_attempts: u32,
    /// Deadline of one attempt.
    pub base_timeout: Duration,
    /// Quality below which an answer is tried again.
    pub quality_threshold: Float32,
    /// Pause between attempts.
    pub retry_delay: Duration,
}

impl RetryConfig {
    /// Default settings with another number of attempts.
    pub fn new(max_attempts: u32) -> (r: Self)
        ensures
            r.max_attempts == max_attempts,
            whole_seconds(r.base_timeout) == 30,
            r.quality_threshold == (Float32 { bits: SEVEN_TENTHS }),
            whole_seconds(r.retry_delay) == 1,
    {
        RetryConfig {
            max_attempts,
            base_timeout: Duration::from_secs(30),
            quality_threshold: Float32 { bits: SEVEN_TENTHS },
            retry_delay: Duration::from_secs(1),
        }
    }

    /// The same settings with another quality threshold.
    pub fn with_quality_threshold(self, threshold: Float32) -> (r: Self)
        ensures
            r == (RetryConfig { quality_threshold: threshold, ..self }),
    {
        let mut r = self;
        r.quality_threshold = threshold;
        r
    }

    /// The same settings with another pause between attempts.
    pub fn with_retry_delay(self, delay: Duration) -> (r: Self)
        ensures
            r == (RetryConfig { retry_delay: delay, ..self }),
    {
        let mut r = self;
        r.retry_delay = delay;
        r
    }
}

impl Default for RetryConfig {
    /// Three attempts of thirty seconds, one second apart.
    fn default() -> (r: Self)
        ensures
            r.max_attempts == 3,
            whole_seconds(r.base_timeout) == 30,
            r.quality_threshold == (Float32 { bits: SEVEN_TENTHS }),
            whole_seconds(r.retry_delay) == 1,
    {
        RetryConfig::new(3)
    }
}

/// One attempt at a generation.
#[derive(Clone, Debug)]
pub struct GenerationAttempt {
    /// The prompt of the attempt.
    pub prompt: String,
    /// What it generated.
    pub result: String,
    /// Quality score of the result.
    pub quality_score: Float32,
    /// Number of the attempt, counted from one.
    pub attempt_number: u32,
    /// How long the attempt took.
    pub duration: Duration,
}

impl GenerationAttempt {
    /// An attempt with no score and no duration yet.
    pub fn new(prompt: String, result: String, attempt_number: u32) -> (r: Self)
        ensures
            r.prompt == prompt,
            r.result == result,
            r.attempt_number == attempt_number,
            r.quality_score == (Float32 { bits: ZERO }),
            whole_seconds(r.duration) == 0,
    {
        GenerationAttempt {
            prompt,
            result,
            quality_score: Float32 { bits: ZERO },
            attempt_number,
            duration: Duration::from_secs(0),
        }
    }

    /// The same attempt with a quality score.
    pub fn with_quality_score(self, score: Float32) -> (r: Self)
        ensures
            r == (GenerationAttempt { quality_score: score, ..self }),
    {
        let mut r = self;
        r.quality_score = score;
        r
    }

    /// The same attempt with its duration.
    pub fn with_duration(self, duration: Duration) -> (r: Self)
        ensures
            r == (GenerationAttempt { duration, ..self }),
    {
        let mut r = self;
        r.duration = duration;
        r
    }
}

/// A message of a chat: who speaks and what is said.
#[derive(Clone, Debug)]
pub struct ChatMessage {
    /// Who speaks: `system`, `user` or `assistant`.
    pub role: String,
    /// What is said.
    pub content: String,
}

impl ChatMessage {
    /// A message of the given role.
    pub fn new(role: &str, content: &str) -> (r: Self)
        ensures
            r.role@ == role@,
            r.content@ == content@,
    {
        ChatMessage { role: role.to_owned(), content: content.to_owned() }
    }

    /// A message of the system.
    pub fn system(content: &str) -> (r: Self)
        ensures
            r.role@ == "system"@,
            r.content@ == content@,
    {
        Self::new("system", content)
    }

    /// A message of the user.
    pub fn user(content: &str) -> (r: Self)
        ensures
            r.role@ == "user"@,
            r.content@ == content@,
    {
        Self::new("user", content)
    }

    /// A message of the assistant.
    pub fn assistant(content: &str) -> (r: Self)
        ensures
            r.role@ == "assistant"@,
            r.content@ == content@,
    {
        Self::new("assistant", content)
    }
}

/// Settings of a chat-completion request.
#[derive(Clone, Debug)]
pub struct ChatCompletionConfig {
    /// Model that answers.
    pub model_id: String,
    /// Deadline of the request.
    pub timeout: Duration,
    /// Largest number of tokens to generate.
    pub max_tokens: u32,
    /// Sampling temperature.
    pub temperature: Option<Float32>,
    /// Top-p sampling.
    pub top_p: Option<Float32>,
    /// Top-k sampling.
    pub top_k: Option<u32>,
    /// Texts at which generation stops.
    pub stop_sequences: Vec<String>,
    /// Penalty on repetition.
    pub repetition_penalty: Option<Float32>,
}

impl ChatCompletionConfig {
    /// The same settings with another model.
    pub fn with_model(self, model_id: &str) -> (r: Self)
        ensures
            r.model_id@ == model_id@,
            r == (ChatCompletionConfig { model_id: r.model_id, ..self }),
    {
        let mut r = self;
        r.model_id = model_id.to_owned();
        r
    }

    /// The same settings with another deadline.
    pub fn with_timeout(self, timeout: Duration) -> (r: Self)
        ensures
            r == (ChatCompletionConfig { timeout, ..self }),
    {
        let mut r = self;
        r.timeout = timeout;
        r
    }

    /// The same settings with another token limit, capped at the largest
    /// that the service accepts.
    pub fn with_max_tokens(self, max_tokens: u32) -> (r: Self)
        ensures
            r == (ChatCompletionConfig {
                max_tokens: if max_tokens <= MAX_TOKENS_LIMIT {
                    max_tokens
                } else {
                    MAX_TOKENS_LIMIT
                },
                ..self
            }),
    {
        let mut r = self;
        r.max_tokens = if max_tokens <= MAX_TOKENS_LIMIT {
            max_tokens
        } else {
            MAX_TOKENS_LIMIT
        };
        r
    }

    /// The same settings with top-p sampling.
    pub fn with_top_p(self, top_p: Float32) -> (r: Self)
        ensures
            r == (ChatCompletionConfig { top_p: Some(top_p), ..self }),
    {
        let mut r = self;
        r.top_p = Some(top_p);
        r
    }

    /// The same settings with top-k sampling.
    pub fn with_top_k(self, top_k: u32) -> (r: Self)
        ensures
            r == (ChatCompletionConfig { top_k: Some(top_k), ..self }),
    {
        let mut r = self;
        r.top_k = Some(top_k);
        r
    }

    /// The same settings with other stop texts.
    pub fn with_stop_sequences(self, stop_sequences: Vec<String>) -> (r: Self)
        ensures
            r == (ChatCompletionConfig { stop_sequences, ..self }),
    {
        let mut r = self;
        r.stop_sequences = stop_sequences;
        r
    }

    /// The same settings with a penalty on repetition.
    pub fn with_repetition_penalty(self, penalty: Float32) -> (r: Self)
        ensures
            r == (ChatCompletionConfig { repetition_penalty: Some(penalty), ..self }),
    {
        let mut r = self;
        r.repetition_penalty = Some(penalty);
        r
    }
}

impl Default for ChatCompletionConfig {
    /// The default model, two minutes, the default token limit and the
    /// default sampling.
    fn default() -> (r: Self)
        ensures
            r.model_id@ == DEFAULT_MODEL@,
            whole_seconds(r.timeout) == 120,
            r.max_tokens == DEFAULT_MAX_TOKENS,
            r.temperature == Some(Float32 { bits: SEVEN_TENTHS }),
            r.top_p == Some(Float32 { bits: ONE }),
            r.top_k == Some(50u32),
            r.stop_sequences@.len() == 0,
            r.repetition_penalty == Some(Float32 { bits: ONE_AND_A_TENTH }),
    {
        ChatCompletionConfig {
            model_id: DEFAULT_MODEL.to_owned(),
            timeout: Duration::from_secs(120),
            max_tokens: DEFAULT_MAX_TOKENS,
            temperature: Some(Float32 { bits: SEVEN_TENTHS }),
            top_p: Some(Float32 { bits: ONE }),
            top_k: Some(50),
            stop_sequences: Vec::new(),
            repetition_penalty: Some(Float32 { bits: ONE_AND_A_TENTH }),
        }
    }
}

/// The answer to a chat-completion request.
#[derive(Clone, Debug)]
pub struct ChatCompletionResult {
    /// The message of the assistant.
    pub message: ChatMessage,
    /// Model that answered.
    pub model_id: String,
    /// Number of tokens of the prompt, if known.
    pub prompt_tokens: Option<u32>,
    /// Number of tokens of the answer, if known.
    pub completion_tokens: Option<u32>,
    /// Number of tokens in all, if known.
    pub total_tokens: Option<u32>,
    /// Why generation stopped, if known.
    pub finish_reason: Option<String>,
    /// Identifier of the request, for tracking.
    pub request_id: Option<String>,
}

impl ChatCompletionResult {
    /// An answer of which only the message and the model are known.
    pub fn new(message: ChatMessage, model_id: String) -> (r: Self)
        ensures
            r == (ChatCompletionResult {
                message,
                model_id,
                prompt_tokens: None,
                completion_tokens: None,
                total_tokens: None,
                finish_reason: None,
                request_id: None,
            }),
    {
        ChatCompletionResult {
            message,
            model_id,
            prompt_tokens: None,
            completion_tokens: None,
            total_tokens: None,
            finish_reason: None,
            request_id: None,
        }
    }

    /// The same answer with its token counts.
    pub fn with_tokens(self, prompt: u32, completion: u32, total: u32) -> (r: Self)
        ensures
            r == (ChatCompletionResult {
                prompt_tokens: Some(prompt),
                completion_tokens: Some(completion),
                total_tokens: Some(total),
                ..self
            }),
    {
        let mut r = self;
        r.prompt_tokens = Some(prompt);
        r.completion_tokens = Some(completion);
        r.total_tokens = Some(total);
        r
    }

    /// The same answer with the reason why generation stopped.
    pub fn with_finish_reason(self, reason: &str) -> (r: Self)
        ensures
            r.finish_reason is Some,
            r.finish_reason->0@ == reason@,
            r == (ChatCompletionResult { finish_reason: r.finish_reason, ..self }),
    {
        let mut r = self;
        r.finish_reason = Some(reason.to_owned());
        r
    }

    /// The same answer with the identifier of its request.
    pub fn with_request_id(self, request_id: String) -> (r: Self)
        ensures
            r == (ChatCompletionResult { request_id: Some(request_id), ..self }),
    {
        let mut r = self;
        r.request_id = Some(request_id);
        r
    }

    /// What the assistant said.
    pub fn content(&self) -> (r: &str)
        ensures
            r@ == self.message.content@,
    {
        self.message.content.as_str()
    }
}

/// What the service tells about a model.
#[derive(Clone, Debug)]
pub struct ModelInfo {
    /// Identifier of the model.
    pub model_id: String,
    /// Display name.
    pub name: Option<String>,
    /// What the model is for.
    pub description: Option<String>,
    /// Who provides the model.
    pub provider: Option<String>,
    /// Version of the model.
    pub version: Option<String>,
    /// Tasks that the model supports.
    pub supported_tasks: Option<Vec<String>>,
    /// Longest context that the model accepts, in tokens.
    pub max_context_length: Option<u32>,
    /// Whether the model can be used now.
    pub available: Option<bool>,
}

impl ModelInfo {
    /// A model of which only the identifier is known.
    pub fn new(model_id: String) -> (r: Self)
        ensures
            r == (ModelInfo {
                model_id,
                name: None,
                description: None,
                provider: None,
                version: None,
                supported_tasks: None,
                max_context_length: None,
                available: None,
            }),
    {
        ModelInfo {
            model_id,
            name: None,
            description: None,
            provider: None,
            version: None,
            supported_tasks: None,
            max_context_length: None,
            available: None,
        }
    }

    /// The same model with a display name.
    pub fn with_name(self, name: String) -> (r: Self)
        ensures
            r == (ModelInfo { name: Some(name), ..self }),
    {
        let mut r = self;
        r.name = Some(name);
        r
    }

    /// The same model with a description.
    pub fn with_description(self, description: String) -> (r: Self)
        ensures
            r == (ModelInfo { description: Some(description), ..self }),
    {
        let mut r = self;
        r.description = Some(description);
        r
    }

    /// The same model with a provider.
    pub fn with_provider(self, provider: String) -> (r: Self)
        ensures
            r == (ModelInfo { provider: Some(provider), ..self }),
    {
        let mut r = self;
        r.provider = Some(provider);
        r
    }

    /// The same model with a version.
    pub fn with_version(self, version: String) -> (r: Self)
        ensures
            r == (ModelInfo { version: Some(version), ..self }),
    {
        let mut r = self;
        r.version = Some(version);
        r
    }

    /// The same model with the tasks it supports.
    pub fn with_supported_tasks(self, tasks: Vec<String>) -> (r: Self)
        ensures
            r == (ModelInfo { supported_tasks: Some(tasks), ..self }),
    {
        let mut r = self;
        r.supported_tasks = Some(tasks);
        r
    }

    /// The same model with its longest context.
    pub fn with_max_context_length(self, length: u32) -> (r: Self)
        ensures
            r == (ModelInfo { max_context_length: Some(length), ..self }),
    {
        let mut r = self;
        r.max_context_length = Some(length);
        r
    }

    /// The same model with its availability.
    pub fn with_available(self, available: bool) -> (r: Self)
        ensures
            r == (ModelInfo { available: Some(available), ..self }),
    {
        let mut r = self;
        r.available = Some(available);
        r
    }
}

} // verus!

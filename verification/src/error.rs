//! The error taxonomy shared by every operation of the library.

use crate::text::joined;
use vstd::prelude::*;

verus! {

/// What went wrong during an operation, with a human-readable detail.
#[derive(Clone, Debug)]
pub enum Error {
    /// Transport-level failure (connection, DNS, broken stream).
    Network(String),
    /// Missing, invalid or expired credential.
    Authentication(String),
    /// The service answered with a failure status or an unusable answer.
    Api(String),
    /// The call exceeded its deadline.
    Timeout(String),
    /// A body did not have any of the expected JSON shapes.
    Serialization(String),
    /// Invalid or missing settings.
    Configuration(String),
    /// The caller passed unusable input.
    InvalidInput(String),
    /// The service asked the caller to slow down.
    RateLimit(String),
    /// The requested model does not exist or is not accessible.
    ModelNotFound(String),
    /// The configured project does not exist or is not accessible.
    ProjectNotFound(String),
    /// Local input/output failure.
    Io(String),
}

/// Result of a fallible operation of this library.
pub type Result<T> = std::result::Result<T, Error>;

impl Error {
    /// The detail text that the error carries.
    pub open spec fn detail(&self) -> Seq<char> {
        match self {
            Error::Network(m) => m@,
            Error::Authentication(m) => m@,
            Error::Api(m) => m@,
            Error::Timeout(m) => m@,
            Error::Serialization(m) => m@,
            Error::Configuration(m) => m@,
            Error::InvalidInput(m) => m@,
            Error::RateLimit(m) => m@,
            Error::ModelNotFound(m) => m@,
            Error::ProjectNotFound(m) => m@,
            Error::Io(m) => m@,
        }
    }

    /// The words that introduce the detail when the error is displayed.
    pub open spec fn label(&self) -> Seq<char> {
        match self {
            Error::Network(_) => "Network error: "@,
            Error::Authentication(_) => "Authentication error: "@,
            Error::Api(_) => "WatsonX API error: "@,
            Error::Timeout(_) => "Timeout: "@,
            Error::Serialization(_) => "Serialization error: "@,
            Error::Configuration(_) => "Configuration error: "@,
            Error::InvalidInput(_) => "Invalid input: "@,
            Error::RateLimit(_) => "Rate limit exceeded: "@,
            Error::ModelNotFound(_) => "Model not found: "@,
            Error::ProjectNotFound(_) => "Project not found: "@,
            Error::Io(_) => "I/O error: "@,
        }
    }

    /// The one-line rendering of the error: its label, then its detail.
    pub open spec fn display(&self) -> Seq<char> {
        self.label() + self.detail()
    }

    /// The troubleshooting paragraph for the kinds that have one.
    pub open spec fn advice(&self) -> Option<Seq<char>> {
        match self {
            Error::Network(_) => Some(
                "\n\nTroubleshooting: Check your internet connection and verify the API endpoint URL is correct."@,
            ),
            Error::Authentication(_) => Some(
                "\n\nTroubleshooting: Verify your WATSONX_API_KEY is set correctly in your environment or .env file."@,
            ),
            Error::Api(_) => Some(
                "\n\nTroubleshooting: Check the error details above, verify your model ID and project ID are correct."@,
            ),
            Error::Timeout(_) => Some(
                "\n\nTroubleshooting: Try increasing the timeout value or reducing max_tokens in your configuration."@,
            ),
            Error::Configuration(_) => Some(
                "\n\nTroubleshooting: Ensure WATSONX_API_KEY and WATSONX_PROJECT_ID are set in your environment or .env file."@,
            ),
            Error::ModelNotFound(_) => Some(
                "\n\nTroubleshooting: Use list_models() to see available models, or verify the model ID is correct."@,
            ),
            Error::ProjectNotFound(_) => Some(
                "\n\nTroubleshooting: Verify your WATSONX_PROJECT_ID is correct and you have access to the project."@,
            ),
            _ => None,
        }
    }

    /// The message for end users: the detail followed by the troubleshooting
    /// paragraph, or the one-line rendering for the kinds that have none.
    pub open spec fn spec_user_message(&self) -> Seq<char> {
        match self.advice() {
            Some(a) => self.detail() + a,
            None => self.display(),
        }
    }

    /// Whether the same call may succeed if simply tried again.
    pub open spec fn spec_is_retryable(&self) -> bool {
        self is Network || self is Timeout || self is RateLimit
    }

    /// Whether the caller has to change something before trying again.
    pub open spec fn spec_requires_user_action(&self) -> bool {
        self is Authentication || self is Configuration || self is InvalidInput
            || self is ModelNotFound || self is ProjectNotFound
    }

    /// Whether the same call may succeed if simply tried again: true exactly
    /// for network, timeout and rate-limit failures.
    #[must_use]
    #[verifier::when_used_as_spec(spec_is_retryable)]
    pub fn is_retryable(&self) -> (r: bool)
        ensures
            r == self.spec_is_retryable(),
    {
        match self {
            Error::Network(_) | Error::Timeout(_) | Error::RateLimit(_) => true,
            _ => false,
        }
    }

    /// Whether the caller has to change something before trying again: true
    /// exactly for authentication, configuration, input, model and project
    /// failures.
    #[must_use]
    #[verifier::when_used_as_spec(spec_requires_user_action)]
    pub fn requires_user_action(&self) -> (r: bool)
        ensures
            r == self.spec_requires_user_action(),
    {
        match self {
            Error::Authentication(_)
            | Error::Configuration(_)
            | Error::InvalidInput(_)
            | Error::ModelNotFound(_)
            | Error::ProjectNotFound(_) => true,
            _ => false,
        }
    }

    /// The detail text that the error carries.
    pub fn message(&self) -> (r: &str)
        ensures
            r@ == self.detail(),
    {
        match self {
            Error::Network(m) => m.as_str(),
            Error::Authentication(m) => m.as_str(),
            Error::Api(m) => m.as_str(),
            Error::Timeout(m) => m.as_str(),
            Error::Serialization(m) => m.as_str(),
            Error::Configuration(m) => m.as_str(),
            Error::InvalidInput(m) => m.as_str(),
            Error::RateLimit(m) => m.as_str(),
            Error::ModelNotFound(m) => m.as_str(),
            Error::ProjectNotFound(m) => m.as_str(),
            Error::Io(m) => m.as_str(),
        }
    }

    /// The one-line rendering of the error.
    #[allow(clippy::inherent_to_string)]
    pub fn to_string(&self) -> (r: String)
        ensures
            r@ == self.display(),
    {
        match self {
            Error::Network(m) => joined("Network error: ", m.as_str()),
            Error::Authentication(m) => joined("Authentication error: ", m.as_str()),
            Error::Api(m) => joined("WatsonX API error: ", m.as_str()),
            Error::Timeout(m) => joined("Timeout: ", m.as_str()),
            Error::Serialization(m) => joined("Serialization error: ", m.as_str()),
            Error::Configuration(m) => joined("Configuration error: ", m.as_str()),
            Error::InvalidInput(m) => joined("Invalid input: ", m.as_str()),
            Error::RateLimit(m) => joined("Rate limit exceeded: ", m.as_str()),
            Error::ModelNotFound(m) => joined("Model not found: ", m.as_str()),
            Error::ProjectNotFound(m) => joined("Project not found: ", m.as_str()),
            Error::Io(m) => joined("I/O error: ", m.as_str()),
        }
    }

    /// The message for end users, with a troubleshooting hint where the kind
    /// of error has one.
    #[must_use]
    pub fn user_message(&self) -> (r: String)
        ensures
            r@ == self.spec_user_message(),
    {
        match self {
            Error::Network(m) => joined(
                m.as_str(),
                "\n\nTroubleshooting: Check your internet connection and verify the API endpoint URL is correct.",
            ),
            Error::Authentication(m) => joined(
                m.as_str(),
                "\n\nTroubleshooting: Verify your WATSONX_API_KEY is set correctly in your environment or .env file.",
            ),
            Error::Api(m) => joined(
                m.as_str(),
                "\n\nTroubleshooting: Check the error details above, verify your model ID and project ID are correct.",
            ),
            Error::Timeout(m) => joined(
                m.as_str(),
                "\n\nTroubleshooting: Try increasing the timeout value or reducing max_tokens in your configuration.",
            ),
            Error::Configuration(m) => joined(
                m.as_str(),
                "\n\nTroubleshooting: Ensure WATSONX_API_KEY and WATSONX_PROJECT_ID are set in your environment or .env file.",
            ),
            Error::ModelNotFound(m) => joined(
                m.as_str(),
                "\n\nTroubleshooting: Use list_models() to see available models, or verify the model ID is correct.",
            ),
            Error::ProjectNotFound(m) => joined(
                m.as_str(),
                "\n\nTroubleshooting: Verify your WATSONX_PROJECT_ID is correct and you have access to the project.",
            ),
            _ => self.to_string(),
        }
    }
}

} // verus!

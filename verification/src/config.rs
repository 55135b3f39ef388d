//! Settings of the text-generation client.

use crate::error::Error;
use crate::models::{DEFAULT_API_URL, DEFAULT_API_VERSION, DEFAULT_IAM_URL, DEFAULT_TIMEOUT_SECS};
use crate::text::{joined, is_blank, is_blank_str};
use vstd::prelude::*;

verus! {

/// Settings of the text-generation client.
#[derive(Clone, Debug)]
pub struct WatsonxConfig {
    /// API key that is exchanged for an access token.
    pub api_key: String,
    /// Project that requests are billed to.
    pub project_id: String,
    /// Host of the identity service.
    pub iam_url: String,
    /// Base address of the service API.
    pub api_url: String,
    /// Version of the service API, sent with every request.
    pub api_version: String,
    /// Deadline of a request, in seconds.
    pub timeout_secs: u64,
}

impl WatsonxConfig {
    /// Settings with the given credentials and the service defaults.
    pub fn new(api_key: String, project_id: String) -> (r: Self)
        ensures
            r.api_key == api_key,
            r.project_id == project_id,
            r.iam_url@ == DEFAULT_IAM_URL@,
            r.api_url@ == DEFAULT_API_URL@,
            r.api_version@ == DEFAULT_API_VERSION@,
            r.timeout_secs == DEFAULT_TIMEOUT_SECS,
    {
        WatsonxConfig {
            api_key,
            project_id,
            iam_url: DEFAULT_IAM_URL.to_owned(),
            api_url: DEFAULT_API_URL.to_owned(),
            api_version: DEFAULT_API_VERSION.to_owned(),
            timeout_secs: DEFAULT_TIMEOUT_SECS,
        }
    }

    /// The same settings with another identity host.
    pub fn with_iam_url(self, iam_url: String) -> (r: Self)
        ensures
            r == (WatsonxConfig { iam_url, ..self }),
    {
        let mut r = self;
        r.iam_url = iam_url;
        r
    }

    /// The same settings with another API base address.
    pub fn with_api_url(self, api_url: String) -> (r: Self)
        ensures
            r == (WatsonxConfig { api_url, ..self }),
    {
        let mut r = self;
        r.api_url = api_url;
        r
    }

    /// The same settings with another API version.
    pub fn with_api_version(self, api_version: String) -> (r: Self)
        ensures
            r == (WatsonxConfig { api_version, ..self }),
    {
        let mut r = self;
        r.api_version = api_version;
        r
    }

    /// The same settings with another deadline.
    pub fn with_timeout(self, timeout_secs: u64) -> (r: Self)
        ensures
            r == (WatsonxConfig { timeout_secs, ..self }),
    {
        let mut r = self;
        r.timeout_secs = timeout_secs;
        r
    }

    /// The address at which the API key is exchanged for an access token.
    pub fn token_url(&self) -> (r: String)
        ensures
            r@ == "https://"@ + self.iam_url@ + "/identity/token"@,
    {
        let a = joined("https://", self.iam_url.as_str());
        joined(a.as_str(), "/identity/token")
    }

    /// The address `path` of the API, with the version of the API as its
    /// query.
    pub fn versioned_url(&self, path: &str) -> (r: String)
        ensures
            r@ == self.api_url@ + path@ + "?version="@ + self.api_version@,
    {
        let a = joined(self.api_url.as_str(), path);
        let b = joined(a.as_str(), "?version=");
        joined(b.as_str(), self.api_version.as_str())
    }

    /// The address of text generation that answers in one piece.
    pub fn generation_url(&self) -> (r: String)
        ensures
            r@ == self.api_url@ + "/ml/v1/text/generation"@ + "?version="@ + self.api_version@,
    {
        self.versioned_url("/ml/v1/text/generation")
    }

    /// The address of text generation that answers as a stream.
    pub fn generation_stream_url(&self) -> (r: String)
        ensures
            r@ == self.api_url@ + "/ml/v1/text/generation_stream"@ + "?version="@
                + self.api_version@,
    {
        self.versioned_url("/ml/v1/text/generation_stream")
    }

    /// The address of the list of models.
    pub fn models_url(&self) -> (r: String)
        ensures
            r@ == self.api_url@ + "/ml/v1/foundation_model_specs"@ + "?version="@
                + self.api_version@,
    {
        self.versioned_url("/ml/v1/foundation_model_specs")
    }

    /// The addresses of chat completion, in the order in which they are
    /// tried: the gateway first, then the versioned API.
    pub fn chat_endpoints(&self) -> (r: Vec<String>)
        ensures
            r@.len() == 2,
            r@[0]@ == self.api_url@ + "/ml/gateway/v1/chat/completions"@,
            r@[1]@ == self.api_url@ + "/ml/v1/chat/completions"@ + "?version="@
                + self.api_version@,
    {
        let mut endpoints: Vec<String> = Vec::new();
        endpoints.push(joined(self.api_url.as_str(), "/ml/gateway/v1/chat/completions"));
        endpoints.push(self.versioned_url("/ml/v1/chat/completions"));
        endpoints
    }

    /// The complaint about the first setting that is empty or blank, looking
    /// at the API key, the project, the identity host and the API address in
    /// that order.
    pub open spec fn complaint(&self) -> Option<Seq<char>> {
        if is_blank(self.api_key@) {
            Some("API key cannot be empty"@)
        } else if is_blank(self.project_id@) {
            Some("Project ID cannot be empty"@)
        } else if is_blank(self.iam_url@) {
            Some("IAM URL cannot be empty"@)
        } else if is_blank(self.api_url@) {
            Some("API URL cannot be empty"@)
        } else {
            None
        }
    }

    /// Accepts the settings where none of the four texts is blank; otherwise
    /// reports the first blank one as a configuration error.
    pub fn validate(&self) -> (r: Result<(), Error>)
        ensures
            r is Ok <==> self.complaint() is None,
            r matches Err(e) ==> e is Configuration && Some(e.detail()) == self.complaint(),
    {
        if is_blank_str(self.api_key.as_str()) {
            return Err(Error::Configuration("API key cannot be empty".to_owned()));
        }
        if is_blank_str(self.project_id.as_str()) {
            return Err(Error::Configuration("Project ID cannot be empty".to_owned()));
        }
        if is_blank_str(self.iam_url.as_str()) {
            return Err(Error::Configuration("IAM URL cannot be empty".to_owned()));
        }
        if is_blank_str(self.api_url.as_str()) {
            return Err(Error::Configuration("API URL cannot be empty".to_owned()));
        }
        Ok(())
    }
}

} // verus!

//! The settings of the Anthropic client: what a request is built from. The
//! requests themselves are sent outside this library.

use vstd::prelude::*;
use vstd::string::StringExecFns;

verus! {

/// The settings of a client.
#[derive(Debug, Clone)]
pub struct AnthropicClient {
    api_key: String,
    base_url: String,
    api_version: String,
}

/// The value of an [`AnthropicClient`].
pub struct AnthropicClientView {
    pub api_key: Seq<char>,
    pub base_url: Seq<char>,
    pub api_version: Seq<char>,
}

impl View for AnthropicClient {
    type V = AnthropicClientView;

    closed spec fn view(&self) -> AnthropicClientView {
        AnthropicClientView {
            api_key: self.api_key@,
            base_url: self.base_url@,
            api_version: self.api_version@,
        }
    }
}

impl AnthropicClient {
    /// A client for the provider's own endpoint.
    pub fn new(api_key: String) -> (out: AnthropicClient)
        ensures
            out@ == (AnthropicClientView {
                api_key: api_key@,
                base_url: "https://api.anthropic.com/v1"@,
                api_version: "2023-06-01"@,
            }),
    {
        AnthropicClient {
            api_key,
            base_url: String::from_str("https://api.anthropic.com/v1"),
            api_version: String::from_str("2023-06-01"),
        }
    }

    /// The same client for another endpoint.
    pub fn with_base_url(self, base_url: String) -> (out: AnthropicClient)
        ensures
            out@ == (AnthropicClientView { base_url: base_url@, ..self@ }),
    {
        let mut out = self;
        out.base_url = base_url;
        out
    }

    /// The key that requests are signed with.
    pub fn api_key(&self) -> (out: &str)
        ensures
            out@ == self@.api_key,
    {
        self.api_key.as_str()
    }

    /// The endpoint.
    pub fn base_url(&self) -> (out: &str)
        ensures
            out@ == self@.base_url,
    {
        self.base_url.as_str()
    }

    /// The version of the interface that requests ask for.
    pub fn api_version(&self) -> (out: &str)
        ensures
            out@ == self@.api_version,
    {
        self.api_version.as_str()
    }

    /// The address that messages are posted to.
    pub fn messages_url(&self) -> (out: String)
        ensures
            out@ == self@.base_url + "/messages"@,
    {
        self.base_url.clone().concat("/messages")
    }
}

} // verus!

//! The settings of the Google client: what a request is built from. The
//! requests themselves are sent outside this library.

use vstd::prelude::*;
use vstd::string::StringExecFns;

verus! {

/// The settings of a client.
#[derive(Debug, Clone)]
pub struct GoogleClient {
    api_key: String,
    base_url: String,
}

/// The value of a [`GoogleClient`].
pub struct GoogleClientView {
    pub api_key: Seq<char>,
    pub base_url: Seq<char>,
}

impl View for GoogleClient {
    type V = GoogleClientView;

    closed spec fn view(&self) -> GoogleClientView {
        GoogleClientView { api_key: self.api_key@, base_url: self.base_url@ }
    }
}

impl GoogleClient {
    /// A client for the provider's own endpoint.
    pub fn new(api_key: String) -> (out: GoogleClient)
        ensures
            out@ == (GoogleClientView {
                api_key: api_key@,
                base_url: "https://generativelanguage.googleapis.com/v1beta"@,
            }),
    {
        GoogleClient {
            api_key,
            base_url: String::from_str("https://generativelanguage.googleapis.com/v1beta"),
        }
    }

    /// The same client for another endpoint.
    pub fn with_base_url(self, base_url: String) -> (out: GoogleClient)
        ensures
            out@ == (GoogleClientView { base_url: base_url@, ..self@ }),
    {
        let mut out = self;
        out.base_url = base_url;
        out
    }

    /// The key that requests carry.
    pub fn api_key(&self) -> (out: &str)
        ensures
            out@ == self@.api_key,
    {
        self.api_key.as_str()
    }

    /// The endpoint.
    pub fn base_url(&self) -> (out: &str)
        ensures
            out@ == self@.base_url,
    {
        self.base_url.as_str()
    }

    /// The address of the listing of models, with the key in its query.
    pub fn models_url(&self) -> (out: String)
        ensures
            out@ == self@.base_url + "/models?key="@ + self@.api_key,
    {
        self.base_url.clone().concat("/models?key=").concat(self.api_key.as_str())
    }

    /// The address that a generation with `model` is posted to.
    pub fn generate_content_url(&self, model: &str) -> (out: String)
        ensures
            out@ == self@.base_url + "/models/"@ + model@ + ":generateContent?key="@
                + self@.api_key,
    {
        self.base_url.clone().concat("/models/").concat(model).concat(
            ":generateContent?key=",
        ).concat(self.api_key.as_str())
    }

    /// The address that a streamed generation with `model` is posted to.
    pub fn stream_generate_content_url(&self, model: &str) -> (out: String)
        ensures
            out@ == self@.base_url + "/models/"@ + model@ + ":streamGenerateContent?key="@
                + self@.api_key,
    {
        self.base_url.clone().concat("/models/").concat(model).concat(
            ":streamGenerateContent?key=",
        ).concat(self.api_key.as_str())
    }
}

} // verus!

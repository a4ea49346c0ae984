//! The settings of the OpenAI client, and what it makes of the bodies that
//! the provider answers with. The requests themselves are sent outside this
//! library.

use crate::json::{json_document, json_failure, parse_json, views, FromJson};
use crate::providers::openai::error::{OpenAIError, OpenAIErrorView};
use crate::providers::openai::types::{
    ChatCompletionResponse, ChatCompletionResponseView, ImageGenerationResponse,
    ImageGenerationResponseView, Model, ModelListResponse, ModelView,
};
use vstd::prelude::*;
use vstd::string::StringExecFns;

verus! {

/// The settings of a client.
#[derive(Debug, Clone)]
pub struct OpenAIClient {
    api_key: String,
    base_url: String,
}

/// The value of an [`OpenAIClient`].
pub struct OpenAIClientView {
    pub api_key: Seq<char>,
    pub base_url: Seq<char>,
}

impl View for OpenAIClient {
    type V = OpenAIClientView;

    closed spec fn view(&self) -> OpenAIClientView {
        OpenAIClientView { api_key: self.api_key@, base_url: self.base_url@ }
    }
}

/// What the body of a listing of models reads as: its models, or a decode
/// failure where the body is no JSON document or no listing.
pub open spec fn model_list_read(body: Seq<char>) -> Result<Seq<ModelView>, OpenAIErrorView> {
    match json_document(body) {
        Some(doc) => match ModelListResponse::of(doc) {
            Ok(list) => Ok(list.data),
            Err(e) => Err(OpenAIErrorView::SerdeJson(e)),
        },
        None => Err(OpenAIErrorView::SerdeJson(json_failure(body))),
    }
}

/// What the body of a chat completion reads as.
pub open spec fn chat_completion_read(body: Seq<char>) -> Result<
    ChatCompletionResponseView,
    OpenAIErrorView,
> {
    match json_document(body) {
        Some(doc) => match ChatCompletionResponse::of(doc) {
            Ok(response) => Ok(response),
            Err(e) => Err(OpenAIErrorView::SerdeJson(e)),
        },
        None => Err(OpenAIErrorView::SerdeJson(json_failure(body))),
    }
}

/// What the body of an image generation reads as.
pub open spec fn image_generation_read(body: Seq<char>) -> Result<
    ImageGenerationResponseView,
    OpenAIErrorView,
> {
    match json_document(body) {
        Some(doc) => match ImageGenerationResponse::of(doc) {
            Ok(response) => Ok(response),
            Err(e) => Err(OpenAIErrorView::SerdeJson(e)),
        },
        None => Err(OpenAIErrorView::SerdeJson(json_failure(body))),
    }
}

impl OpenAIClient {
    /// A client for the provider's own endpoint.
    pub fn new(api_key: String) -> (out: OpenAIClient)
        ensures
            out@ == (OpenAIClientView {
                api_key: api_key@,
                base_url: "https://api.openai.com/v1"@,
            }),
    {
        OpenAIClient { api_key, base_url: String::from_str("https://api.openai.com/v1") }
    }

    /// The same client for another endpoint.
    pub fn with_base_url(self, base_url: String) -> (out: OpenAIClient)
        ensures
            out@ == (OpenAIClientView { base_url: base_url@, ..self@ }),
    {
        let mut out = self;
        out.base_url = base_url;
        out
    }

    /// The key that requests are signed with.
    pub fn api_key(&self) -> (out: &str)
        ensures
            out@ == self@.api_key,
    {
        self.api_key.as_str()
    }

    /// The endpoint.
    pub fn base_url(&self) -> (out: &str)
        ensures
            out@ == self@.base_url,
    {
        self.base_url.as_str()
    }

    /// The address of the listing of models.
    pub fn models_url(&self) -> (out: String)
        ensures
            out@ == self@.base_url + "/models"@,
    {
        self.base_url.clone().concat("/models")
    }

    /// The address that chat completions are posted to.
    pub fn chat_completions_url(&self) -> (out: String)
        ensures
            out@ == self@.base_url + "/chat/completions"@,
    {
        self.base_url.clone().concat("/chat/completions")
    }

    /// The address that image generations are posted to.
    pub fn image_generations_url(&self) -> (out: String)
        ensures
            out@ == self@.base_url + "/images/generations"@,
    {
        self.base_url.clone().concat("/images/generations")
    }

    /// Reads the body of a listing of models.
    pub fn read_model_list(body: &str) -> (out: Result<Vec<Model>, OpenAIError>)
        ensures
            match out {
                Ok(models) => model_list_read(body@) == Ok::<Seq<ModelView>, OpenAIErrorView>(
                    views(models@),
                ),
                Err(e) => model_list_read(body@) == Err::<Seq<ModelView>, OpenAIErrorView>(e@),
            },
    {
        match parse_json(body) {
            Ok(doc) => match ModelListResponse::decode(&doc) {
                Ok(list) => Ok(list.data),
                Err(e) => Err(OpenAIError::SerdeJson(e)),
            },
            Err(e) => Err(OpenAIError::SerdeJson(e)),
        }
    }

    /// Reads the body of a chat completion.
    pub fn read_chat_completion(body: &str) -> (out: Result<ChatCompletionResponse, OpenAIError>)
        ensures
            match out {
                Ok(response) => chat_completion_read(body@) == Ok::<
                    ChatCompletionResponseView,
                    OpenAIErrorView,
                >(response@),
                Err(e) => chat_completion_read(body@) == Err::<
                    ChatCompletionResponseView,
                    OpenAIErrorView,
                >(e@),
            },
    {
        match parse_json(body) {
            Ok(doc) => match ChatCompletionResponse::decode(&doc) {
                Ok(response) => Ok(response),
                Err(e) => Err(OpenAIError::SerdeJson(e)),
            },
            Err(e) => Err(OpenAIError::SerdeJson(e)),
        }
    }

    /// Reads the body of an image generation.
    pub fn read_image_generation(body: &str) -> (out: Result<ImageGenerationResponse, OpenAIError>)
        ensures
            match out {
                Ok(response) => image_generation_read(body@) == Ok::<
                    ImageGenerationResponseView,
                    OpenAIErrorView,
                >(response@),
                Err(e) => image_generation_read(body@) == Err::<
                    ImageGenerationResponseView,
                    OpenAIErrorView,
                >(e@),
            },
    {
        match parse_json(body) {
            Ok(doc) => match ImageGenerationResponse::decode(&doc) {
                Ok(response) => Ok(response),
                Err(e) => Err(OpenAIError::SerdeJson(e)),
            },
            Err(e) => Err(OpenAIError::SerdeJson(e)),
        }
    }
}

} // verus!

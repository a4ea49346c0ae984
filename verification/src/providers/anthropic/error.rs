//! The errors of the Anthropic client and stream.

use crate::json::json_error_text;
use crate::stream::transport_error_text;
use crate::text::{debug_form, debug_text, has_prefix};
use vstd::prelude::*;
use vstd::std_specs::convert::FromSpecImpl;
use vstd::string::StringExecFns;

verus! {

/// What can go wrong with a request or a stream.
#[derive(Debug)]
pub enum AnthropicError {
    /// The transport failed.
    Reqwest(reqwest::Error),
    /// A payload is no JSON document, or none of the expected shape.
    SerdeJson(serde_json::Error),
    /// The server answered with a status that is no success; the body is kept.
    InvalidResponse(String),
    /// The server reported an error of its own.
    ApiError { message: String, error_type: Option<String> },
}

/// An error as a mathematical value: its kind, and what it carries.
pub enum AnthropicErrorView {
    /// A transport failure, with the error of the transport.
    Reqwest(reqwest::Error),
    /// A decode failure, with the error of the decoder.
    SerdeJson(serde_json::Error),
    InvalidResponse(Seq<char>),
    ApiError { message: Seq<char>, error_type: Option<Seq<char>> },
}

impl View for AnthropicError {
    type V = AnthropicErrorView;

    open spec fn view(&self) -> AnthropicErrorView {
        match self {
            AnthropicError::Reqwest(error) => AnthropicErrorView::Reqwest(*error),
            AnthropicError::SerdeJson(error) => AnthropicErrorView::SerdeJson(*error),
            AnthropicError::InvalidResponse(body) => AnthropicErrorView::InvalidResponse(body@),
            AnthropicError::ApiError { message, error_type } => AnthropicErrorView::ApiError {
                message: message@,
                error_type: error_type.deep_view(),
            },
        }
    }
}

impl AnthropicErrorView {
    /// The message of an error that carries its own text. The messages of
    /// transport and JSON errors end with a text of the crate they come from.
    pub open spec fn message(self) -> Option<Seq<char>> {
        match self {
            AnthropicErrorView::Reqwest(_) => None,
            AnthropicErrorView::SerdeJson(_) => None,
            AnthropicErrorView::InvalidResponse(body) => Some("Invalid response: "@ + body),
            AnthropicErrorView::ApiError { message, error_type } => Some(
                "API error: "@ + message + " (type: "@ + debug_form(error_type) + ")"@,
            ),
        }
    }
}

impl AnthropicError {
    /// The message of this error, for display.
    pub fn message(&self) -> (out: String)
        ensures
            self@ is Reqwest ==> has_prefix(out@, "Request error: "@),
            self@ is SerdeJson ==> has_prefix(out@, "JSON error: "@),
            self@.message() matches Some(text) ==> out@ == text,
    {
        match self {
            AnthropicError::Reqwest(e) => {
                let out = String::from_str("Request error: ").concat(
                    transport_error_text(e).as_str(),
                );
                assert(out@.subrange(0, "Request error: "@.len() as int) =~= "Request error: "@);
                out
            },
            AnthropicError::SerdeJson(e) => {
                let out = String::from_str("JSON error: ").concat(json_error_text(e).as_str());
                assert(out@.subrange(0, "JSON error: "@.len() as int) =~= "JSON error: "@);
                out
            },
            AnthropicError::InvalidResponse(body) => String::from_str("Invalid response: ").concat(
                body.as_str(),
            ),
            AnthropicError::ApiError { message, error_type } => String::from_str(
                "API error: ",
            ).concat(message.as_str()).concat(" (type: ").concat(
                debug_text(error_type).as_str(),
            ).concat(")"),
        }
    }
}

impl From<reqwest::Error> for AnthropicError {
    fn from(err: reqwest::Error) -> (out: AnthropicError) {
        AnthropicError::Reqwest(err)
    }
}

impl FromSpecImpl<reqwest::Error> for AnthropicError {
    open spec fn obeys_from_spec() -> bool {
        true
    }

    open spec fn from_spec(err: reqwest::Error) -> AnthropicError {
        AnthropicError::Reqwest(err)
    }
}

impl From<serde_json::Error> for AnthropicError {
    fn from(err: serde_json::Error) -> (out: AnthropicError) {
        AnthropicError::SerdeJson(err)
    }
}

impl FromSpecImpl<serde_json::Error> for AnthropicError {
    open spec fn obeys_from_spec() -> bool {
        true
    }

    open spec fn from_spec(err: serde_json::Error) -> AnthropicError {
        AnthropicError::SerdeJson(err)
    }
}

} // verus!

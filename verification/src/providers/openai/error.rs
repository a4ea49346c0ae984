//! The errors of the OpenAI client and stream.

use crate::json::json_error_text;
use crate::stream::transport_error_text;
use crate::text::{debug_form, debug_text, has_prefix};
use vstd::prelude::*;
use vstd::std_specs::convert::FromSpecImpl;
use vstd::string::StringExecFns;

verus! {

/// What can go wrong with a request or a stream.
#[derive(Debug)]
pub enum OpenAIError {
    /// The transport failed.
    Reqwest(reqwest::Error),
    /// A payload is no JSON document, or none of the expected shape.
    SerdeJson(serde_json::Error),
    /// The server answered with a status that is no success; the body is kept.
    InvalidResponse(String),
    /// The server reported an error of its own.
    ApiError { message: String, code: Option<String> },
}

/// An error as a mathematical value: its kind, and what it carries.
pub enum OpenAIErrorView {
    /// A transport failure, with the error of the transport.
    Reqwest(reqwest::Error),
    /// A decode failure, with the error of the decoder.
    SerdeJson(serde_json::Error),
    InvalidResponse(Seq<char>),
    ApiError { message: Seq<char>, code: Option<Seq<char>> },
}

impl View for OpenAIError {
    type V = OpenAIErrorView;

    open spec fn view(&self) -> OpenAIErrorView {
        match self {
            OpenAIError::Reqwest(error) => OpenAIErrorView::Reqwest(*error),
            OpenAIError::SerdeJson(error) => OpenAIErrorView::SerdeJson(*error),
            OpenAIError::InvalidResponse(body) => OpenAIErrorView::InvalidResponse(body@),
            OpenAIError::ApiError { message, code } => OpenAIErrorView::ApiError {
                message: message@,
                code: code.deep_view(),
            },
        }
    }
}

impl OpenAIErrorView {
    /// The message of an error that carries its own text. The messages of
    /// transport and JSON errors end with a text of the crate they come from.
    pub open spec fn message(self) -> Option<Seq<char>> {
        match self {
            OpenAIErrorView::Reqwest(_) => None,
            OpenAIErrorView::SerdeJson(_) => None,
            OpenAIErrorView::InvalidResponse(body) => Some("Invalid response: "@ + body),
            OpenAIErrorView::ApiError { message, code } => Some(
                "API error: "@ + message + " (code: "@ + debug_form(code) + ")"@,
            ),
        }
    }
}

impl OpenAIError {
    /// The message of this error, for display.
    pub fn message(&self) -> (out: String)
        ensures
            self@ is Reqwest ==> has_prefix(out@, "Request error: "@),
            self@ is SerdeJson ==> has_prefix(out@, "JSON error: "@),
            self@.message() matches Some(text) ==> out@ == text,
    {
        match self {
            OpenAIError::Reqwest(e) => {
                let out = String::from_str("Request error: ").concat(
                    transport_error_text(e).as_str(),
                );
                assert(out@.subrange(0, "Request error: "@.len() as int) =~= "Request error: "@);
                out
            },
            OpenAIError::SerdeJson(e) => {
                let out = String::from_str("JSON error: ").concat(json_error_text(e).as_str());
                assert(out@.subrange(0, "JSON error: "@.len() as int) =~= "JSON error: "@);
                out
            },
            OpenAIError::InvalidResponse(body) => String::from_str("Invalid response: ").concat(
                body.as_str(),
            ),
            OpenAIError::ApiError { message, code } => String::from_str(
                "API error: ",
            ).concat(message.as_str()).concat(" (code: ").concat(
                debug_text(code).as_str(),
            ).concat(")"),
        }
    }
}

impl From<reqwest::Error> for OpenAIError {
    fn from(err: reqwest::Error) -> (out: OpenAIError) {
        OpenAIError::Reqwest(err)
    }
}

impl FromSpecImpl<reqwest::Error> for OpenAIError {
    open spec fn obeys_from_spec() -> bool {
        true
    }

    open spec fn from_spec(err: reqwest::Error) -> OpenAIError {
        OpenAIError::Reqwest(err)
    }
}

impl From<serde_json::Error> for OpenAIError {
    fn from(err: serde_json::Error) -> (out: OpenAIError) {
        OpenAIError::SerdeJson(err)
    }
}

impl FromSpecImpl<serde_json::Error> for OpenAIError {
    open spec fn obeys_from_spec() -> bool {
        true
    }

    open spec fn from_spec(err: serde_json::Error) -> OpenAIError {
        OpenAIError::SerdeJson(err)
    }
}

} // verus!

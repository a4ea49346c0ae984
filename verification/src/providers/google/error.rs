//! The errors of the Google client and stream.

use crate::json::json_error_text;
use crate::stream::transport_error_text;
use crate::text::{debug_form_i32, debug_text_i32, has_prefix};
use vstd::prelude::*;
use vstd::std_specs::convert::FromSpecImpl;
use vstd::string::StringExecFns;

verus! {

/// What can go wrong with a request or a stream.
#[derive(Debug)]
pub enum GoogleError {
    /// The transport failed.
    Reqwest(reqwest::Error),
    /// A payload is no JSON document, or none of the expected shape.
    SerdeJson(serde_json::Error),
    /// The server answered with a status that is no success; the body is kept.
    InvalidResponse(String),
    /// The server reported an error of its own.
    ApiError { message: String, code: Option<i32> },
}

/// An error as a mathematical value: its kind, and what it carries.
pub enum GoogleErrorView {
    /// A transport failure, with the error of the transport.
    Reqwest(reqwest::Error),
    /// A decode failure, with the error of the decoder.
    SerdeJson(serde_json::Error),
    InvalidResponse(Seq<char>),
    ApiError { message: Seq<char>, code: Option<i32> },
}

impl View for GoogleError {
    type V = GoogleErrorView;

    open spec fn view(&self) -> GoogleErrorView {
        match self {
            GoogleError::Reqwest(error) => GoogleErrorView::Reqwest(*error),
            GoogleError::SerdeJson(error) => GoogleErrorView::SerdeJson(*error),
            GoogleError::InvalidResponse(body) => GoogleErrorView::InvalidResponse(body@),
            GoogleError::ApiError { message, code } => GoogleErrorView::ApiError {
                message: message@,
                code: *code,
            },
        }
    }
}

impl GoogleErrorView {
    /// The message of an error that carries its own text. The messages of
    /// transport and JSON errors end with a text of the crate they come from.
    pub open spec fn message(self) -> Option<Seq<char>> {
        match self {
            GoogleErrorView::Reqwest(_) => None,
            GoogleErrorView::SerdeJson(_) => None,
            GoogleErrorView::InvalidResponse(body) => Some("Invalid response: "@ + body),
            GoogleErrorView::ApiError { message, code } => Some(
                "API error: "@ + message + " (code: "@ + debug_form_i32(code) + ")"@,
            ),
        }
    }
}

impl GoogleError {
    /// The message of this error, for display.
    pub fn message(&self) -> (out: String)
        ensures
            self@ is Reqwest ==> has_prefix(out@, "Request error: "@),
            self@ is SerdeJson ==> has_prefix(out@, "JSON error: "@),
            self@.message() matches Some(text) ==> out@ == text,
    {
        match self {
            GoogleError::Reqwest(e) => {
                let out = String::from_str("Request error: ").concat(
                    transport_error_text(e).as_str(),
                );
                assert(out@.subrange(0, "Request error: "@.len() as int) =~= "Request error: "@);
                out
            },
            GoogleError::SerdeJson(e) => {
                let out = String::from_str("JSON error: ").concat(json_error_text(e).as_str());
                assert(out@.subrange(0, "JSON error: "@.len() as int) =~= "JSON error: "@);
                out
            },
            GoogleError::InvalidResponse(body) => String::from_str("Invalid response: ").concat(
                body.as_str(),
            ),
            GoogleError::ApiError { message, code } => String::from_str("API error: ").concat(
                message.as_str(),
            ).concat(" (code: ").concat(debug_text_i32(code).as_str()).concat(")"),
        }
    }
}

impl From<reqwest::Error> for GoogleError {
    fn from(err: reqwest::Error) -> (out: GoogleError) {
        GoogleError::Reqwest(err)
    }
}

impl FromSpecImpl<reqwest::Error> for GoogleError {
    open spec fn obeys_from_spec() -> bool {
        true
    }

    open spec fn from_spec(err: reqwest::Error) -> GoogleError {
        GoogleError::Reqwest(err)
    }
}

impl From<serde_json::Error> for GoogleError {
    fn from(err: serde_json::Error) -> (out: GoogleError) {
        GoogleError::SerdeJson(err)
    }
}

impl FromSpecImpl<serde_json::Error> for GoogleError {
    open spec fn obeys_from_spec() -> bool {
        true
    }

    open spec fn from_spec(err: serde_json::Error) -> GoogleError {
        GoogleError::SerdeJson(err)
    }
}

} // verus!

//! The response of the generate-content call.

use crate::json::{rejection, schema_error, Json, JsonValue};
use vstd::prelude::*;

verus! {

/// One response of the generate-content call: a JSON object, held member by
/// member as it came.
#[derive(Debug, Clone)]
pub struct GenerateContentResponse {
    pub members: Vec<(String, Json)>,
}

impl View for GenerateContentResponse {
    type V = Seq<(Seq<char>, JsonValue)>;

    open spec fn view(&self) -> Seq<(Seq<char>, JsonValue)> {
        Json::view_members(self.members@)
    }
}

/// The response that a document stands for: the members of an object, and
/// a rejection for a document that is no object.
pub open spec fn response_of(doc: JsonValue) -> Result<
    Seq<(Seq<char>, JsonValue)>,
    serde_json::Error,
> {
    match doc {
        JsonValue::Object(members) => Ok(members),
        _ => Err(rejection("invalid type: expected an object for"@, "response"@)),
    }
}

/// Decodes one response.
pub fn decode_response(doc: Json) -> (out: Result<GenerateContentResponse, serde_json::Error>)
    ensures
        match out {
            Ok(response) => response_of(doc@) == Ok::<Seq<(Seq<char>, JsonValue)>, serde_json::Error>(
                response@,
            ),
            Err(e) => response_of(doc@) == Err::<Seq<(Seq<char>, JsonValue)>, serde_json::Error>(e),
        },
{
    match doc {
        Json::Object(members) => Ok(GenerateContentResponse { members }),
        _ => Err(schema_error("invalid type: expected an object for", "response")),
    }
}

} // verus!

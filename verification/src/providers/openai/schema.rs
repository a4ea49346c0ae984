//! The wire schema of a streamed chunk: which JSON document stands for which
//! chunk, and with which error a document is rejected that stands for none.
//! Members that the schema does not name are ignored. The members of a
//! document are read in the order in which the schema lists them, and the
//! first that is missing or of the wrong type gives the error.

use crate::json::{
    decoded_list, decoded_member, list_field, member_as, optional_decoded_list,
    optional_decoded_member, optional_list_field, optional_member_as, FromJson, Json, JsonValue,
};
use crate::providers::openai::stream::{
    Delta, DeltaView, FunctionDelta, FunctionDeltaView, StreamChoice, StreamChoiceView,
    StreamChunk, StreamChunkView, ToolCallDelta, ToolCallDeltaView,
};
use vstd::prelude::*;

verus! {

impl FromJson for FunctionDelta {
    /// The function fragment that a document stands for.
    open spec fn of(doc: JsonValue) -> Result<FunctionDeltaView, serde_json::Error> {
        match (
            doc.object_or_rejection("function"@),
            doc.optional_text_member("name"@),
            doc.optional_text_member("arguments"@),
        ) {
            (Ok(_), Ok(name), Ok(arguments)) => Ok(FunctionDeltaView { name, arguments }),
            (Err(e), _, _) => Err(e),
            (_, Err(e), _) => Err(e),
            (_, _, Err(e)) => Err(e),
        }
    }

    /// Decodes a function fragment.
    fn decode(doc: &Json) -> (out: Result<FunctionDelta, serde_json::Error>) {
        doc.expect_object("function")?;
        let name = doc.optional_text_field("name")?;
        let arguments = doc.optional_text_field("arguments")?;
        Ok(FunctionDelta { name, arguments })
    }
}

impl FromJson for ToolCallDelta {
    /// The tool call fragment that a document stands for.
    open spec fn of(doc: JsonValue) -> Result<ToolCallDeltaView, serde_json::Error> {
        match (
            doc.i32_member("index"@),
            doc.optional_text_member("id"@),
            optional_decoded_member::<FunctionDelta>(doc, "function"@),
        ) {
            (Ok(index), Ok(id), Ok(function)) => Ok(ToolCallDeltaView { index, id, function }),
            (Err(e), _, _) => Err(e),
            (_, Err(e), _) => Err(e),
            (_, _, Err(e)) => Err(e),
        }
    }

    /// Decodes a tool call fragment.
    fn decode(doc: &Json) -> (out: Result<ToolCallDelta, serde_json::Error>) {
        let index = doc.i32_field("index")?;
        let id = doc.optional_text_field("id")?;
        let function = optional_member_as::<FunctionDelta>(doc, "function")?;
        Ok(ToolCallDelta { index, id, function })
    }
}

impl FromJson for Delta {
    /// The increment that a document stands for.
    open spec fn of(doc: JsonValue) -> Result<DeltaView, serde_json::Error> {
        match (
            doc.object_or_rejection("delta"@),
            doc.optional_text_member("role"@),
            doc.optional_text_member("content"@),
            optional_decoded_list::<ToolCallDelta>(doc, "tool_calls"@),
        ) {
            (Ok(_), Ok(role), Ok(content), Ok(tool_calls)) => Ok(DeltaView { role, content, tool_calls }),
            (Err(e), _, _, _) => Err(e),
            (_, Err(e), _, _) => Err(e),
            (_, _, Err(e), _) => Err(e),
            (_, _, _, Err(e)) => Err(e),
        }
    }

    /// Decodes an increment.
    fn decode(doc: &Json) -> (out: Result<Delta, serde_json::Error>) {
        doc.expect_object("delta")?;
        let role = doc.optional_text_field("role")?;
        let content = doc.optional_text_field("content")?;
        let tool_calls = optional_list_field::<ToolCallDelta>(doc, "tool_calls")?;
        Ok(Delta { role, content, tool_calls })
    }
}

impl FromJson for StreamChoice {
    /// The choice that a document stands for.
    open spec fn of(doc: JsonValue) -> Result<StreamChoiceView, serde_json::Error> {
        match (
            doc.i32_member("index"@),
            decoded_member::<Delta>(doc, "delta"@),
            doc.optional_text_member("finish_reason"@),
        ) {
            (Ok(index), Ok(delta), Ok(finish_reason)) => Ok(StreamChoiceView { index, delta, finish_reason }),
            (Err(e), _, _) => Err(e),
            (_, Err(e), _) => Err(e),
            (_, _, Err(e)) => Err(e),
        }
    }

    /// Decodes a choice.
    fn decode(doc: &Json) -> (out: Result<StreamChoice, serde_json::Error>) {
        let index = doc.i32_field("index")?;
        let delta = member_as::<Delta>(doc, "delta")?;
        let finish_reason = doc.optional_text_field("finish_reason")?;
        Ok(StreamChoice { index, delta, finish_reason })
    }
}

impl FromJson for StreamChunk {
    /// The chunk that a document stands for.
    open spec fn of(doc: JsonValue) -> Result<StreamChunkView, serde_json::Error> {
        match (
            doc.text_member("id"@),
            doc.text_member("object"@),
            doc.i64_member("created"@),
            doc.text_member("model"@),
            decoded_list::<StreamChoice>(doc, "choices"@),
        ) {
            (Ok(id), Ok(object), Ok(created), Ok(model), Ok(choices)) => Ok(StreamChunkView { id, object, created, model, choices }),
            (Err(e), _, _, _, _) => Err(e),
            (_, Err(e), _, _, _) => Err(e),
            (_, _, Err(e), _, _) => Err(e),
            (_, _, _, Err(e), _) => Err(e),
            (_, _, _, _, Err(e)) => Err(e),
        }
    }

    /// Decodes one chunk of the stream.
    fn decode(doc: &Json) -> (out: Result<StreamChunk, serde_json::Error>) {
        let id = doc.text_field("id")?;
        let object = doc.text_field("object")?;
        let created = doc.i64_field("created")?;
        let model = doc.text_field("model")?;
        let choices = list_field::<StreamChoice>(doc, "choices")?;
        Ok(StreamChunk { id, object, created, model, choices })
    }
}

} // verus!

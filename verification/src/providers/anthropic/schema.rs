//! The wire schema of the stream's events: which JSON document stands for
//! which event, and with which error a document is rejected that stands for
//! none.
//!
//! An event is an object whose member `type` names the variant in snake
//! case; the variant's fields are further members of the same object.
//! Members that the schema does not name are ignored. The members of a
//! document are read in the order in which the schema lists them, and the
//! first that is missing or of the wrong type gives the error.

use crate::json::{
    decoded_member, member_as, rejection, schema_error, FromJson, Json, JsonValue,
};
use crate::providers::anthropic::stream::{
    ContentBlockStart, ContentBlockStartView, ContentDelta, ContentDeltaView, DeltaUsage,
    MessageDelta, MessageDeltaView, MessageStart, MessageStartView, StreamEvent, StreamEventView,
    Usage,
};
use crate::text::text_eq;
use vstd::prelude::*;

verus! {

impl FromJson for Usage {
    /// The token counts that a document stands for.
    open spec fn of(doc: JsonValue) -> Result<Usage, serde_json::Error> {
        match (
            doc.i32_member("input_tokens"@),
            doc.i32_member("output_tokens"@),
        ) {
            (Ok(input_tokens), Ok(output_tokens)) => Ok(Usage { input_tokens, output_tokens }),
            (Err(e), _) => Err(e),
            (_, Err(e)) => Err(e),
        }
    }

    /// Decodes token counts.
    fn decode(doc: &Json) -> (out: Result<Usage, serde_json::Error>) {
        let input_tokens = doc.i32_field("input_tokens")?;
        let output_tokens = doc.i32_field("output_tokens")?;
        Ok(Usage { input_tokens, output_tokens })
    }
}

impl FromJson for DeltaUsage {
    /// The token count of a message delta that a document stands for.
    open spec fn of(doc: JsonValue) -> Result<DeltaUsage, serde_json::Error> {
        match doc.i32_member("output_tokens"@) {
            Ok(output_tokens) => Ok(DeltaUsage { output_tokens }),
            Err(e) => Err(e),
        }
    }

    /// Decodes the token count of a message delta.
    fn decode(doc: &Json) -> (out: Result<DeltaUsage, serde_json::Error>) {
        let output_tokens = doc.i32_field("output_tokens")?;
        Ok(DeltaUsage { output_tokens })
    }
}

impl FromJson for MessageDelta {
    /// The message delta that a document stands for.
    open spec fn of(doc: JsonValue) -> Result<MessageDeltaView, serde_json::Error> {
        match (
            doc.object_or_rejection("delta"@),
            doc.optional_text_member("stop_reason"@),
            doc.optional_text_member("stop_sequence"@),
        ) {
            (Ok(_), Ok(stop_reason), Ok(stop_sequence)) => Ok(MessageDeltaView { stop_reason, stop_sequence }),
            (Err(e), _, _) => Err(e),
            (_, Err(e), _) => Err(e),
            (_, _, Err(e)) => Err(e),
        }
    }

    /// Decodes a message delta.
    fn decode(doc: &Json) -> (out: Result<MessageDelta, serde_json::Error>) {
        doc.expect_object("delta")?;
        let stop_reason = doc.optional_text_field("stop_reason")?;
        let stop_sequence = doc.optional_text_field("stop_sequence")?;
        Ok(MessageDelta { stop_reason, stop_sequence })
    }
}

impl FromJson for ContentDelta {
    /// The content delta that a document stands for.
    open spec fn of(doc: JsonValue) -> Result<ContentDeltaView, serde_json::Error> {
        match doc.text_member("type"@) {
            Ok(tag) => if tag == "text_delta"@ {
                match doc.text_member("text"@) {
                    Ok(text) => Ok(ContentDeltaView::TextDelta { text }),
                    Err(e) => Err(e),
                }
            } else if tag == "input_json_delta"@ {
                match doc.text_member("partial_json"@) {
                    Ok(partial_json) => Ok(ContentDeltaView::InputJsonDelta { partial_json }),
                    Err(e) => Err(e),
                }
            } else {
                Err(rejection("unknown variant"@, tag))
            },
            Err(e) => Err(e),
        }
    }

    /// Decodes a content delta.
    fn decode(doc: &Json) -> (out: Result<ContentDelta, serde_json::Error>) {
        let tag = doc.text_field("type")?;
        if text_eq(tag.as_str(), "text_delta") {
            let text = doc.text_field("text")?;
            Ok(ContentDelta::TextDelta { text })
        } else if text_eq(tag.as_str(), "input_json_delta") {
            let partial_json = doc.text_field("partial_json")?;
            Ok(ContentDelta::InputJsonDelta { partial_json })
        } else {
            Err(schema_error("unknown variant", tag.as_str()))
        }
    }
}

impl FromJson for ContentBlockStart {
    /// The opening of a content block that a document stands for.
    open spec fn of(doc: JsonValue) -> Result<ContentBlockStartView, serde_json::Error> {
        match doc.text_member("type"@) {
            Ok(tag) => if tag == "text"@ {
                match doc.text_member("text"@) {
                    Ok(text) => Ok(ContentBlockStartView::Text { text }),
                    Err(e) => Err(e),
                }
            } else if tag == "tool_use"@ {
                match (doc.text_member("id"@), doc.text_member("name"@), doc.required("input"@)) {
                    (Ok(id), Ok(name), Ok(input)) => Ok(
                        ContentBlockStartView::ToolUse { id, name, input },
                    ),
                    (Err(e), _, _) => Err(e),
                    (_, Err(e), _) => Err(e),
                    (_, _, Err(e)) => Err(e),
                }
            } else {
                Err(rejection("unknown variant"@, tag))
            },
            Err(e) => Err(e),
        }
    }

    /// Decodes the opening of a content block.
    fn decode(doc: &Json) -> (out: Result<ContentBlockStart, serde_json::Error>) {
        let tag = doc.text_field("type")?;
        if text_eq(tag.as_str(), "text") {
            let text = doc.text_field("text")?;
            Ok(ContentBlockStart::Text { text })
        } else if text_eq(tag.as_str(), "tool_use") {
            let id = doc.text_field("id")?;
            let name = doc.text_field("name")?;
            let input = doc.field("input")?.clone();
            Ok(ContentBlockStart::ToolUse { id, name, input })
        } else {
            Err(schema_error("unknown variant", tag.as_str()))
        }
    }
}

impl FromJson for MessageStart {
    /// The opening message that a document stands for.
    open spec fn of(doc: JsonValue) -> Result<MessageStartView, serde_json::Error> {
        match (
            doc.text_member("id"@),
            doc.text_member("type"@),
            doc.text_member("role"@),
            doc.items_member("content"@),
            doc.text_member("model"@),
            doc.optional_text_member("stop_reason"@),
            doc.optional_text_member("stop_sequence"@),
            decoded_member::<Usage>(doc, "usage"@),
        ) {
            (Ok(id), Ok(message_type), Ok(role), Ok(content), Ok(model), Ok(stop_reason), Ok(stop_sequence), Ok(usage)) => Ok(MessageStartView { id, message_type, role, content, model, stop_reason, stop_sequence, usage }),
            (Err(e), _, _, _, _, _, _, _) => Err(e),
            (_, Err(e), _, _, _, _, _, _) => Err(e),
            (_, _, Err(e), _, _, _, _, _) => Err(e),
            (_, _, _, Err(e), _, _, _, _) => Err(e),
            (_, _, _, _, Err(e), _, _, _) => Err(e),
            (_, _, _, _, _, Err(e), _, _) => Err(e),
            (_, _, _, _, _, _, Err(e), _) => Err(e),
            (_, _, _, _, _, _, _, Err(e)) => Err(e),
        }
    }

    /// Decodes the opening message.
    fn decode(doc: &Json) -> (out: Result<MessageStart, serde_json::Error>) {
        let id = doc.text_field("id")?;
        let message_type = doc.text_field("type")?;
        let role = doc.text_field("role")?;
        let content = Json::clone_items(doc.array_field("content")?);
        let model = doc.text_field("model")?;
        let stop_reason = doc.optional_text_field("stop_reason")?;
        let stop_sequence = doc.optional_text_field("stop_sequence")?;
        let usage = member_as::<Usage>(doc, "usage")?;
        Ok(MessageStart { id, message_type, role, content, model, stop_reason, stop_sequence, usage })
    }
}

impl FromJson for StreamEvent {
    /// The event that a document stands for. A document stands for none
    /// where it has no `type`, where its `type` names no variant, and where
    /// a field that the variant needs is missing or of the wrong type.
    open spec fn of(doc: JsonValue) -> Result<StreamEventView, serde_json::Error> {
        match doc.text_member("type"@) {
            Ok(tag) => if tag == "message_start"@ {
                match decoded_member::<MessageStart>(doc, "message"@) {
                    Ok(message) => Ok(StreamEventView::MessageStart { message }),
                    Err(e) => Err(e),
                }
            } else if tag == "content_block_start"@ {
                match (
                    doc.i32_member("index"@),
                    decoded_member::<ContentBlockStart>(doc, "content_block"@),
                ) {
                    (Ok(index), Ok(content_block)) => Ok(
                        StreamEventView::ContentBlockStart { index, content_block },
                    ),
                    (Err(e), _) => Err(e),
                    (_, Err(e)) => Err(e),
                }
            } else if tag == "content_block_delta"@ {
                match (doc.i32_member("index"@), decoded_member::<ContentDelta>(doc, "delta"@)) {
                    (Ok(index), Ok(delta)) => Ok(
                        StreamEventView::ContentBlockDelta { index, delta },
                    ),
                    (Err(e), _) => Err(e),
                    (_, Err(e)) => Err(e),
                }
            } else if tag == "content_block_stop"@ {
                match doc.i32_member("index"@) {
                    Ok(index) => Ok(StreamEventView::ContentBlockStop { index }),
                    Err(e) => Err(e),
                }
            } else if tag == "message_delta"@ {
                match (
                    decoded_member::<MessageDelta>(doc, "delta"@),
                    decoded_member::<DeltaUsage>(doc, "usage"@),
                ) {
                    (Ok(delta), Ok(usage)) => Ok(StreamEventView::MessageDelta { delta, usage }),
                    (Err(e), _) => Err(e),
                    (_, Err(e)) => Err(e),
                }
            } else if tag == "message_stop"@ {
                Ok(StreamEventView::MessageStop)
            } else if tag == "ping"@ {
                Ok(StreamEventView::Ping)
            } else {
                Err(rejection("unknown variant"@, tag))
            },
            Err(e) => Err(e),
        }
    }

    /// Decodes one event of the stream.
    fn decode(doc: &Json) -> (out: Result<StreamEvent, serde_json::Error>) {
        let tag = doc.text_field("type")?;
        if text_eq(tag.as_str(), "message_start") {
            let message = member_as::<MessageStart>(doc, "message")?;
            Ok(StreamEvent::MessageStart { message })
        } else if text_eq(tag.as_str(), "content_block_start") {
            let index = doc.i32_field("index")?;
            let content_block = member_as::<ContentBlockStart>(doc, "content_block")?;
            Ok(StreamEvent::ContentBlockStart { index, content_block })
        } else if text_eq(tag.as_str(), "content_block_delta") {
            let index = doc.i32_field("index")?;
            let delta = member_as::<ContentDelta>(doc, "delta")?;
            Ok(StreamEvent::ContentBlockDelta { index, delta })
        } else if text_eq(tag.as_str(), "content_block_stop") {
            let index = doc.i32_field("index")?;
            Ok(StreamEvent::ContentBlockStop { index })
        } else if text_eq(tag.as_str(), "message_delta") {
            let delta = member_as::<MessageDelta>(doc, "delta")?;
            let usage = member_as::<DeltaUsage>(doc, "usage")?;
            Ok(StreamEvent::MessageDelta { delta, usage })
        } else if text_eq(tag.as_str(), "message_stop") {
            Ok(StreamEvent::MessageStop)
        } else if text_eq(tag.as_str(), "ping") {
            Ok(StreamEvent::Ping)
        } else {
            Err(schema_error("unknown variant", tag.as_str()))
        }
    }
}

} // verus!

//! The events of a streamed message, and the stream that decodes them.

use crate::event_stream::{EventStream, RecordDecoder};
use crate::json::{json_document, json_failure, parse_json, FromJson, Json, JsonValue};
use crate::providers::anthropic::error::{AnthropicError, AnthropicErrorView};
use crate::stream::Decoded;
use crate::text::{has_prefix, strip_prefix};
use vstd::prelude::*;

verus! {

/// One event of a streamed message.
#[derive(Debug, Clone)]
#[allow(inconsistent_fields)]
pub enum StreamEvent {
    MessageStart { message: MessageStart },
    ContentBlockStart { index: i32, content_block: ContentBlockStart },
    ContentBlockDelta { index: i32, delta: ContentDelta },
    ContentBlockStop { index: i32 },
    MessageDelta { delta: MessageDelta, usage: DeltaUsage },
    MessageStop,
    Ping,
}

/// The message that a stream opens with.
#[derive(Debug, Clone)]
pub struct MessageStart {
    pub id: String,
    pub message_type: String,
    pub role: String,
    pub content: Vec<Json>,
    pub model: String,
    pub stop_reason: Option<String>,
    pub stop_sequence: Option<String>,
    pub usage: Usage,
}

/// Token counts of a message.
#[derive(Debug, Clone, Copy, PartialEq, Eq)]
pub struct Usage {
    pub input_tokens: i32,
    pub output_tokens: i32,
}

/// The block that a content block opens with.
#[derive(Debug, Clone)]
pub enum ContentBlockStart {
    Text { text: String },
    ToolUse { id: String, name: String, input: Json },
}

/// An increment to a content block.
#[derive(Debug, Clone)]
pub enum ContentDelta {
    TextDelta { text: String },
    InputJsonDelta { partial_json: String },
}

/// What changed at the top of the message.
#[derive(Debug, Clone)]
pub struct MessageDelta {
    pub stop_reason: Option<String>,
    pub stop_sequence: Option<String>,
}

/// The token count that comes with a message delta.
#[derive(Debug, Clone, Copy, PartialEq, Eq)]
pub struct DeltaUsage {
    pub output_tokens: i32,
}

/// The value of a [`StreamEvent`].
#[allow(inconsistent_fields)]
pub enum StreamEventView {
    MessageStart { message: MessageStartView },
    ContentBlockStart { index: i32, content_block: ContentBlockStartView },
    ContentBlockDelta { index: i32, delta: ContentDeltaView },
    ContentBlockStop { index: i32 },
    MessageDelta { delta: MessageDeltaView, usage: DeltaUsage },
    MessageStop,
    Ping,
}

/// The value of a [`MessageStart`].
pub struct MessageStartView {
    pub id: Seq<char>,
    pub message_type: Seq<char>,
    pub role: Seq<char>,
    pub content: Seq<JsonValue>,
    pub model: Seq<char>,
    pub stop_reason: Option<Seq<char>>,
    pub stop_sequence: Option<Seq<char>>,
    pub usage: Usage,
}

/// The value of a [`ContentBlockStart`].
pub enum ContentBlockStartView {
    Text { text: Seq<char> },
    ToolUse { id: Seq<char>, name: Seq<char>, input: JsonValue },
}

/// The value of a [`ContentDelta`].
pub enum ContentDeltaView {
    TextDelta { text: Seq<char> },
    InputJsonDelta { partial_json: Seq<char> },
}

/// The value of a [`MessageDelta`].
pub struct MessageDeltaView {
    pub stop_reason: Option<Seq<char>>,
    pub stop_sequence: Option<Seq<char>>,
}

impl View for Usage {
    type V = Usage;

    open spec fn view(&self) -> Usage {
        *self
    }
}

impl View for DeltaUsage {
    type V = DeltaUsage;

    open spec fn view(&self) -> DeltaUsage {
        *self
    }
}

impl View for MessageDelta {
    type V = MessageDeltaView;

    open spec fn view(&self) -> MessageDeltaView {
        MessageDeltaView {
            stop_reason: self.stop_reason.deep_view(),
            stop_sequence: self.stop_sequence.deep_view(),
        }
    }
}

impl View for ContentDelta {
    type V = ContentDeltaView;

    open spec fn view(&self) -> ContentDeltaView {
        match self {
            ContentDelta::TextDelta { text } => ContentDeltaView::TextDelta { text: text@ },
            ContentDelta::InputJsonDelta { partial_json } => ContentDeltaView::InputJsonDelta {
                partial_json: partial_json@,
            },
        }
    }
}

impl View for ContentBlockStart {
    type V = ContentBlockStartView;

    open spec fn view(&self) -> ContentBlockStartView {
        match self {
            ContentBlockStart::Text { text } => ContentBlockStartView::Text { text: text@ },
            ContentBlockStart::ToolUse { id, name, input } => ContentBlockStartView::ToolUse {
                id: id@,
                name: name@,
                input: input@,
            },
        }
    }
}

impl View for MessageStart {
    type V = MessageStartView;

    open spec fn view(&self) -> MessageStartView {
        MessageStartView {
            id: self.id@,
            message_type: self.message_type@,
            role: self.role@,
            content: Json::view_items(self.content@),
            model: self.model@,
            stop_reason: self.stop_reason.deep_view(),
            stop_sequence: self.stop_sequence.deep_view(),
            usage: self.usage,
        }
    }
}

impl View for StreamEvent {
    type V = StreamEventView;

    open spec fn view(&self) -> StreamEventView {
        match self {
            StreamEvent::MessageStart { message } => StreamEventView::MessageStart {
                message: message@,
            },
            StreamEvent::ContentBlockStart { index, content_block } => {
                StreamEventView::ContentBlockStart { index: *index, content_block: content_block@ }
            },
            StreamEvent::ContentBlockDelta { index, delta } => StreamEventView::ContentBlockDelta {
                index: *index,
                delta: delta@,
            },
            StreamEvent::ContentBlockStop { index } => StreamEventView::ContentBlockStop {
                index: *index,
            },
            StreamEvent::MessageDelta { delta, usage } => StreamEventView::MessageDelta {
                delta: delta@,
                usage: *usage,
            },
            StreamEvent::MessageStop => StreamEventView::MessageStop,
            StreamEvent::Ping => StreamEventView::Ping,
        }
    }
}

/// One item of the stream: an event, or the failure that took its place.
pub type StreamItem = Result<StreamEvent, AnthropicError>;

/// The value of a [`StreamItem`].
pub type StreamItemView = Result<StreamEventView, AnthropicErrorView>;

/// The value of an item.
pub open spec fn item_view(item: StreamItem) -> StreamItemView {
    match item {
        Ok(event) => Ok(event@),
        Err(error) => Err(error@),
    }
}

/// What a payload decodes to: the event that its JSON document stands for,
/// and a decode failure where it is no document or stands for no event. The
/// failure carries the error of the parser in the first case and the error
/// of the schema in the second.
pub open spec fn decoded_payload(payload: Seq<char>) -> StreamItemView {
    match json_document(payload) {
        Some(doc) => match StreamEvent::of(doc) {
            Ok(event) => Ok(event),
            Err(e) => Err(AnthropicErrorView::SerdeJson(e)),
        },
        None => Err(AnthropicErrorView::SerdeJson(json_failure(payload))),
    }
}

/// What a record decodes to. Only a record that begins with `data: ` carries
/// a payload; an empty record, an `event: ` line and any other line carry
/// nothing.
pub open spec fn decoded_line(line: Seq<char>) -> Option<StreamItemView> {
    if line.len() > 0 && has_prefix(line, "data: "@) {
        Some(decoded_payload(line.skip("data: "@.len() as int)))
    } else {
        None
    }
}

/// Decodes the payload of a `data: ` line.
pub fn decode_payload(payload: &str) -> (out: StreamItem)
    ensures
        item_view(out) == decoded_payload(payload@),
{
    match parse_json(payload) {
        Ok(doc) => match StreamEvent::decode(&doc) {
            Ok(event) => Ok(event),
            Err(e) => Err(AnthropicError::SerdeJson(e)),
        },
        Err(e) => Err(AnthropicError::SerdeJson(e)),
    }
}

/// Decodes one record.
pub fn decode_line(line: &str) -> (out: Option<StreamItem>)
    ensures
        match out {
            Some(item) => decoded_line(line@) == Some(item_view(item)),
            None => decoded_line(line@) is None,
        },
{
    if line.is_empty() {
        return None;
    }
    match strip_prefix(line, "data: ") {
        Some(data) => Some(decode_payload(data)),
        None => None,
    }
}

/// The decoder of this provider's records: server-sent events whose payload
/// is an event tagged by its `type`. No record ends the stream.
pub struct AnthropicDecoder;

impl RecordDecoder for AnthropicDecoder {
    type Item = StreamItem;

    type ItemView = StreamItemView;

    open spec fn item_view(item: StreamItem) -> StreamItemView {
        item_view(item)
    }

    open spec fn decoded(record: Seq<char>) -> Decoded<StreamItemView> {
        match decoded_line(record) {
            Some(item) => Decoded::Item(item),
            None => Decoded::Skip,
        }
    }

    open spec fn transport_failure(error: reqwest::Error) -> StreamItemView {
        Err(AnthropicErrorView::Reqwest(error))
    }

    fn decode(record: &str) -> (out: Decoded<StreamItem>) {
        match decode_line(record) {
            Some(item) => Decoded::Item(item),
            None => Decoded::Skip,
        }
    }

    fn failed(error: reqwest::Error) -> (out: StreamItem) {
        Err(AnthropicError::Reqwest(error))
    }
}

/// The stream of a message's events.
pub type AnthropicStream = EventStream<AnthropicDecoder>;

impl EventStream<AnthropicDecoder> {
    /// Decodes one record. The stream itself is left as it was: what a record
    /// decodes to has no bearing on the records that follow.
    pub fn parse_line(&mut self, line: &str) -> (out: Option<StreamItem>)
        ensures
            *final(self) == *old(self),
            match out {
                Some(item) => decoded_line(line@) == Some(item_view(item)),
                None => decoded_line(line@) is None,
            },
    {
        decode_line(line)
    }
}

} // verus!

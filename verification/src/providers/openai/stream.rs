//! The chunks of a streamed chat completion, and the stream that decodes
//! them.

use crate::assembler::AssemblerView;
use crate::event_stream::{decoder_of, EventStream, RecordDecoder};
use crate::json::{json_document, json_failure, parse_json, views, FromJson};
use crate::providers::openai::error::{OpenAIError, OpenAIErrorView};
use crate::stream::{
    items_of_body, lemma_records_are_independent, meets_end_marker, next_item, Decoded,
    StreamPoll,
};
use crate::text::{
    decoded_text, has_prefix, lemma_line_feed_index_is, lemma_trimmed_range, strip_prefix, text_eq,
    LINE_FEED,
};
use vstd::prelude::*;
use vstd::utf8::{
    encode_utf8, encode_utf8_decode_utf8, encode_utf8_valid_utf8, is_ascii_chars,
    is_ascii_chars_encode_utf8,
};

verus! {

/// One chunk of a streamed chat completion.
#[derive(Debug, Clone)]
pub struct StreamChunk {
    pub id: String,
    pub object: String,
    pub created: i64,
    pub model: String,
    pub choices: Vec<StreamChoice>,
}

/// One choice of a chunk.
#[derive(Debug, Clone)]
pub struct StreamChoice {
    pub index: i32,
    pub delta: Delta,
    pub finish_reason: Option<String>,
}

/// The increment that a choice carries.
#[derive(Debug, Clone)]
pub struct Delta {
    pub role: Option<String>,
    pub content: Option<String>,
    pub tool_calls: Option<Vec<ToolCallDelta>>,
}

/// A fragment of a tool call.
#[derive(Debug, Clone)]
pub struct ToolCallDelta {
    pub index: i32,
    pub id: Option<String>,
    pub function: Option<FunctionDelta>,
}

/// A fragment of the function of a tool call.
#[derive(Debug, Clone)]
pub struct FunctionDelta {
    pub name: Option<String>,
    pub arguments: Option<String>,
}

/// The value of a [`StreamChunk`].
pub struct StreamChunkView {
    pub id: Seq<char>,
    pub object: Seq<char>,
    pub created: i64,
    pub model: Seq<char>,
    pub choices: Seq<StreamChoiceView>,
}

/// The value of a [`StreamChoice`].
pub struct StreamChoiceView {
    pub index: i32,
    pub delta: DeltaView,
    pub finish_reason: Option<Seq<char>>,
}

/// The value of a [`Delta`].
pub struct DeltaView {
    pub role: Option<Seq<char>>,
    pub content: Option<Seq<char>>,
    pub tool_calls: Option<Seq<ToolCallDeltaView>>,
}

/// The value of a [`ToolCallDelta`].
pub struct ToolCallDeltaView {
    pub index: i32,
    pub id: Option<Seq<char>>,
    pub function: Option<FunctionDeltaView>,
}

/// The value of a [`FunctionDelta`].
pub struct FunctionDeltaView {
    pub name: Option<Seq<char>>,
    pub arguments: Option<Seq<char>>,
}

impl View for FunctionDelta {
    type V = FunctionDeltaView;

    open spec fn view(&self) -> FunctionDeltaView {
        FunctionDeltaView {
            name: self.name.deep_view(),
            arguments: self.arguments.deep_view(),
        }
    }
}

impl View for ToolCallDelta {
    type V = ToolCallDeltaView;

    open spec fn view(&self) -> ToolCallDeltaView {
        ToolCallDeltaView {
            index: self.index,
            id: self.id.deep_view(),
            function: match self.function {
                Some(f) => Some(f@),
                None => None,
            },
        }
    }
}

impl View for Delta {
    type V = DeltaView;

    open spec fn view(&self) -> DeltaView {
        DeltaView {
            role: self.role.deep_view(),
            content: self.content.deep_view(),
            tool_calls: match self.tool_calls {
                Some(calls) => Some(views(calls@)),
                None => None,
            },
        }
    }
}

impl View for StreamChoice {
    type V = StreamChoiceView;

    open spec fn view(&self) -> StreamChoiceView {
        StreamChoiceView {
            index: self.index,
            delta: self.delta@,
            finish_reason: self.finish_reason.deep_view(),
        }
    }
}

impl View for StreamChunk {
    type V = StreamChunkView;

    open spec fn view(&self) -> StreamChunkView {
        StreamChunkView {
            id: self.id@,
            object: self.object@,
            created: self.created,
            model: self.model@,
            choices: views(self.choices@),
        }
    }
}

/// One item of the stream: a chunk, or the failure that took its place.
pub type StreamItem = Result<StreamChunk, OpenAIError>;

/// The value of a [`StreamItem`].
pub type StreamItemView = Result<StreamChunkView, OpenAIErrorView>;

/// The value of an item.
pub open spec fn item_view(item: StreamItem) -> StreamItemView {
    match item {
        Ok(chunk) => Ok(chunk@),
        Err(error) => Err(error@),
    }
}

/// What a payload decodes to: the chunk that its JSON document stands for,
/// and a decode failure where it is no document or stands for no chunk. The
/// failure carries the error of the parser in the first case and the error
/// of the schema in the second.
pub open spec fn decoded_payload(payload: Seq<char>) -> StreamItemView {
    match json_document(payload) {
        Some(doc) => match StreamChunk::of(doc) {
            Ok(chunk) => Ok(chunk),
            Err(e) => Err(OpenAIErrorView::SerdeJson(e)),
        },
        None => Err(OpenAIErrorView::SerdeJson(json_failure(payload))),
    }
}

/// The payload that marks the end of the logical stream.
pub open spec fn end_marker() -> Seq<char> {
    "[DONE]"@
}

/// The line that carries the end marker.
pub open spec fn end_marker_line() -> Seq<char> {
    "data: "@ + end_marker()
}

/// Whether a record marks the end of the logical stream: a `data: ` line
/// whose payload is the end marker.
pub open spec fn is_end_marker(line: Seq<char>) -> bool {
    has_prefix(line, "data: "@) && line.skip("data: "@.len() as int) == end_marker()
}

/// What a record decodes to. Only a record that begins with `data: ` carries
/// a payload, and the end marker is no payload; every other record carries
/// nothing.
pub open spec fn decoded_line(line: Seq<char>) -> Option<StreamItemView> {
    if line.len() > 0 && has_prefix(line, "data: "@) && !is_end_marker(line) {
        Some(decoded_payload(line.skip("data: "@.len() as int)))
    } else {
        None
    }
}

/// Decodes the payload of a `data: ` line.
pub fn decode_payload(payload: &str) -> (out: StreamItem)
    ensures
        item_view(out) == decoded_payload(payload@),
{
    match parse_json(payload) {
        Ok(doc) => match StreamChunk::decode(&doc) {
            Ok(chunk) => Ok(chunk),
            Err(e) => Err(OpenAIError::SerdeJson(e)),
        },
        Err(e) => Err(OpenAIError::SerdeJson(e)),
    }
}

/// Decodes one record.
pub fn decode_line(line: &str) -> (out: Option<StreamItem>)
    ensures
        match out {
            Some(item) => decoded_line(line@) == Some(item_view(item)),
            None => decoded_line(line@) is None,
        },
{
    if line.is_empty() {
        return None;
    }
    match strip_prefix(line, "data: ") {
        Some(data) => {
            if text_eq(data, "[DONE]") {
                None
            } else {
                Some(decode_payload(data))
            }
        },
        None => None,
    }
}

/// Whether a record is the end marker.
pub fn is_end_marker_line(line: &str) -> (out: bool)
    ensures
        out == is_end_marker(line@),
{
    match strip_prefix(line, "data: ") {
        Some(data) => text_eq(data, "[DONE]"),
        None => false,
    }
}

/// The decoder of this provider's records: server-sent events whose payload
/// is a chunk. The end marker ends the stream.
pub struct OpenAIDecoder;

impl RecordDecoder for OpenAIDecoder {
    type Item = StreamItem;

    type ItemView = StreamItemView;

    open spec fn item_view(item: StreamItem) -> StreamItemView {
        item_view(item)
    }

    open spec fn decoded(record: Seq<char>) -> Decoded<StreamItemView> {
        if is_end_marker(record) {
            Decoded::Done
        } else {
            match decoded_line(record) {
                Some(item) => Decoded::Item(item),
                None => Decoded::Skip,
            }
        }
    }

    open spec fn transport_failure(error: reqwest::Error) -> StreamItemView {
        Err(OpenAIErrorView::Reqwest(error))
    }

    fn decode(record: &str) -> (out: Decoded<StreamItem>) {
        if is_end_marker_line(record) {
            Decoded::Done
        } else {
            match decode_line(record) {
                Some(item) => Decoded::Item(item),
                None => Decoded::Skip,
            }
        }
    }

    fn failed(error: reqwest::Error) -> (out: StreamItem) {
        Err(OpenAIError::Reqwest(error))
    }
}

/// The bytes of the line that carries the end marker.
pub open spec fn end_marker_bytes() -> Seq<u8> {
    encode_utf8(end_marker_line())
}

/// The end marker gives no item and ends the logical stream: whatever
/// follows its line, the extraction stops there with the end of the stream,
/// nothing is left in the assembler, and a body that begins with it gives no
/// item at all.
pub proof fn lemma_end_marker_ends_the_stream(rest: Seq<u8>, exhausted: bool)
    ensures
        is_end_marker(end_marker_line()),
        decoded_line(end_marker_line()) is None,
        decoded_text(end_marker_bytes()) == end_marker_line(),
        ({
            let s = AssemblerView {
                buffer: end_marker_bytes() + seq![LINE_FEED] + rest,
                exhausted,
            };
            &&& next_item(s, decoder_of::<OpenAIDecoder>()) == (
                s.aborted(),
                StreamPoll::<StreamItemView>::EndOfStream,
            )
            &&& meets_end_marker(s, decoder_of::<OpenAIDecoder>())
        }),
        items_of_body(end_marker_bytes() + seq![LINE_FEED] + rest, decoder_of::<OpenAIDecoder>())
            == Seq::<StreamItemView>::empty(),
{
    reveal_strlit("data: ");
    reveal_strlit("[DONE]");
    let line = end_marker_line();
    let bytes = end_marker_bytes();
    assert(line.len() == 12);
    assert(line.subrange(0, 6) =~= "data: "@);
    assert(line.skip(6) =~= "[DONE]"@);
    assert(line[0] == 'd' && line[11] == ']');
    assert forall|j: int| 0 <= j < line.len() implies line[j] != '\n' && (line[j] as u32) < 128 by {
        if j < 6 {
            assert(line[j] == "data: "@[j]);
        } else {
            assert(line[j] == "[DONE]"@[j - 6]);
        }
    }
    lemma_trimmed_range(line, 0, 12);
    assert(line.subrange(0, 12) =~= line);
    assert(is_ascii_chars(line));
    is_ascii_chars_encode_utf8(line);
    encode_utf8_valid_utf8(line);
    encode_utf8_decode_utf8(line);
    assert(bytes.len() == 12);
    assert forall|j: int| 0 <= j < bytes.len() implies bytes[j] != LINE_FEED by {
        assert(bytes[j] == line[j] as u8);
    }
    lemma_records_are_independent(bytes, rest, decoder_of::<OpenAIDecoder>());
    let buffer = bytes + seq![LINE_FEED] + rest;
    assert forall|j: int| 0 <= j < 12 implies buffer[j] != LINE_FEED by {
        assert(buffer[j] == bytes[j]);
    }
    assert(buffer[12] == LINE_FEED);
    lemma_line_feed_index_is(buffer, 12);
    assert(buffer.take(12) =~= bytes);
}

/// The stream of a chat completion's chunks.
pub type OpenAIStream = EventStream<OpenAIDecoder>;

impl EventStream<OpenAIDecoder> {
    /// Decodes one record. The stream itself is left as it was: what a record
    /// decodes to has no bearing on the records that follow.
    pub fn parse_line(&mut self, line: &str) -> (out: Option<StreamItem>)
        ensures
            *final(self) == *old(self),
            match out {
                Some(item) => decoded_line(line@) == Some(item_view(item)),
                None => decoded_line(line@) is None,
            },
    {
        decode_line(line)
    }
}

} // verus!

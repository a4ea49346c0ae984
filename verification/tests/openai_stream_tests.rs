use llm_gateway::json::{decode_items, parse_json, FromJson, Json};
use llm_gateway::providers::openai::stream::{
    is_end_marker_line, Delta, FunctionDelta, OpenAIStream, StreamChoice, StreamChunk,
    ToolCallDelta,
};
use llm_gateway::providers::openai::OpenAIError;
use llm_gateway::stream::{SourceEvent, StreamPoll};

const CHUNK: &str = "{\"id\":\"c1\",\"object\":\"chat.completion.chunk\",\"created\":1700000000,\"model\":\"gpt\",\"choices\":[{\"index\":0,\"delta\":{\"role\":\"assistant\",\"content\":\"Hi\"},\"finish_reason\":null}]}";

fn bytes_of(parts: &[&str]) -> Vec<Vec<u8>> {
    parts.iter().map(|p| p.as_bytes().to_vec()).collect()
}

fn shapes(items: &[Result<StreamChunk, OpenAIError>]) -> Vec<String> {
    items.iter().map(|i| format!("{:?}", i)).collect()
}

#[test]
fn done_marker_gives_no_event_and_ends_the_stream() {
    let mut stream = OpenAIStream::new();
    assert!(!stream.is_completed());
    let polled = stream.poll_next(SourceEvent::Chunk(b"data: [DONE]\n"));
    assert!(matches!(polled, StreamPoll::EndOfStream));
    assert!(stream.is_completed());
    assert!(stream.is_ended());
    assert!(matches!(stream.poll_next(SourceEvent::Resumed), StreamPoll::EndOfStream));
    assert!(matches!(stream.poll_next(SourceEvent::Finished), StreamPoll::EndOfStream));
}

#[test]
fn done_marker_through_collect() {
    let items = OpenAIStream::collect(&bytes_of(&["data: [DONE]\n"]));
    assert!(items.is_empty());
    let body = format!("data: {}\n\ndata: [DONE]\n\n", CHUNK);
    let items = OpenAIStream::collect(&bytes_of(&[&body]));
    assert_eq!(items.len(), 1);
    assert!(items[0].is_ok());
}

#[test]
fn what_follows_the_done_marker_is_dropped() {
    let body = format!("data: {}\ndata: [DONE]\ndata: {}\n", CHUNK, CHUNK);
    let mut stream = OpenAIStream::new();
    assert!(matches!(
        stream.poll_next(SourceEvent::Chunk(body.as_bytes())),
        StreamPoll::Item(Ok(_))
    ));
    assert!(!stream.is_completed());
    assert!(matches!(stream.poll_next(SourceEvent::Resumed), StreamPoll::EndOfStream));
    assert!(stream.is_completed());
    assert!(matches!(
        stream.poll_next(SourceEvent::Chunk(body.as_bytes())),
        StreamPoll::EndOfStream
    ));
    assert_eq!(OpenAIStream::collect(&bytes_of(&[&body])).len(), 1);
}

#[test]
fn a_source_that_runs_dry_is_not_completed() {
    let body = format!("data: {}\n", CHUNK);
    let mut stream = OpenAIStream::new();
    assert!(matches!(
        stream.poll_next(SourceEvent::Chunk(body.as_bytes())),
        StreamPoll::Item(Ok(_))
    ));
    assert!(matches!(stream.poll_next(SourceEvent::Resumed), StreamPoll::NeedMoreData));
    assert!(matches!(stream.poll_next(SourceEvent::Finished), StreamPoll::EndOfStream));
    assert!(stream.is_ended());
    assert!(!stream.is_completed());
}

#[test]
fn flushed_done_marker_completes_too() {
    let mut stream = OpenAIStream::new();
    assert!(matches!(
        stream.poll_next(SourceEvent::Chunk(b"data: [DONE]")),
        StreamPoll::NeedMoreData
    ));
    assert!(!stream.is_completed());
    assert!(matches!(stream.poll_next(SourceEvent::Finished), StreamPoll::EndOfStream));
    assert!(stream.is_completed());
}

#[test]
fn done_line_is_told_apart() {
    assert!(is_end_marker_line("data: [DONE]"));
    assert!(!is_end_marker_line("data: [DONE] "));
    assert!(!is_end_marker_line("data:[DONE]"));
    assert!(!is_end_marker_line("[DONE]"));
    assert!(!is_end_marker_line("data: [done]"));
    assert!(!is_end_marker_line(""));
}

#[test]
fn parse_line_decodes_data_lines_only() {
    let mut stream = OpenAIStream::new();
    assert!(stream.parse_line("").is_none());
    assert!(stream.parse_line("event: chunk").is_none());
    assert!(stream.parse_line("data: [DONE]").is_none());
    assert!(stream.parse_line(CHUNK).is_none());
    let line = format!("data: {}", CHUNK);
    match stream.parse_line(&line) {
        Some(Ok(chunk)) => {
            assert_eq!(chunk.id, "c1");
            assert_eq!(chunk.object, "chat.completion.chunk");
            assert_eq!(chunk.created, 1700000000);
            assert_eq!(chunk.model, "gpt");
            assert_eq!(chunk.choices.len(), 1);
            assert_eq!(chunk.choices[0].index, 0);
            assert_eq!(chunk.choices[0].delta.role.as_deref(), Some("assistant"));
            assert_eq!(chunk.choices[0].delta.content.as_deref(), Some("Hi"));
            assert!(chunk.choices[0].delta.tool_calls.is_none());
            assert_eq!(chunk.choices[0].finish_reason, None);
        }
        other => panic!("unexpected: {:?}", other),
    }
}

#[test]
fn an_empty_payload_is_a_decode_failure() {
    let mut stream = OpenAIStream::new();
    assert!(matches!(stream.parse_line("data: "), Some(Err(OpenAIError::SerdeJson(_)))));
    let items = OpenAIStream::collect(&bytes_of(&["data: "]));
    assert_eq!(items.len(), 1);
    assert!(matches!(items[0], Err(OpenAIError::SerdeJson(_))));
    let items = OpenAIStream::collect(&bytes_of(&["data: \n"]));
    assert!(items.is_empty());
}

#[test]
fn decode_failure_does_not_stop_the_stream() {
    let body = format!("data: {{\"id\":1}}\ndata: {}\ndata: oops\ndata: {}\n", CHUNK, CHUNK);
    let items = OpenAIStream::collect(&bytes_of(&[&body]));
    assert_eq!(items.len(), 4);
    assert!(matches!(items[0], Err(OpenAIError::SerdeJson(_))));
    assert!(items[1].is_ok());
    assert!(matches!(items[2], Err(OpenAIError::SerdeJson(_))));
    assert!(items[3].is_ok());
}

#[test]
fn chunking_does_not_change_the_chunks() {
    let body = format!("data: {}\n\ndata: {{}}\r\ndata: {}\n\ndata: [DONE]\n\n", CHUNK, CHUNK);
    let whole = OpenAIStream::collect(&bytes_of(&[&body]));
    assert_eq!(whole.len(), 3);
    let bytes = body.as_bytes();
    let single: Vec<Vec<u8>> = bytes.iter().map(|b| vec![*b]).collect();
    assert_eq!(shapes(&OpenAIStream::collect(&single)), shapes(&whole));
    for cut in (0..bytes.len()).step_by(7) {
        let two = vec![bytes[..cut].to_vec(), bytes[cut..].to_vec()];
        assert_eq!(shapes(&OpenAIStream::collect(&two)), shapes(&whole), "cut at {}", cut);
    }
}

#[test]
fn transport_failure_ends_the_stream_without_completing_it() {
    let mut stream = OpenAIStream::new();
    let error = reqwest::Client::new().get("not a url").build().unwrap_err();
    assert!(matches!(
        stream.poll_next(SourceEvent::Failed(error)),
        StreamPoll::Item(Err(OpenAIError::Reqwest(_)))
    ));
    assert!(stream.is_ended());
    assert!(!stream.is_completed());
    assert!(matches!(stream.poll_next(SourceEvent::Resumed), StreamPoll::EndOfStream));
}

#[test]
fn tool_call_fragments_decode() {
    let doc = parse_json(
        "{\"tool_calls\":[{\"index\":0,\"id\":\"call_1\",\"function\":{\"name\":\"f\",\"arguments\":\"\"}},{\"index\":1,\"function\":{\"arguments\":\"{\\\"a\"}},{\"index\":2}]}",
    )
    .unwrap();
    let delta = Delta::decode(&doc).unwrap();
    assert_eq!(delta.role, None);
    assert_eq!(delta.content, None);
    let calls = delta.tool_calls.unwrap();
    assert_eq!(calls.len(), 3);
    assert_eq!(calls[0].index, 0);
    assert_eq!(calls[0].id.as_deref(), Some("call_1"));
    let f0 = calls[0].function.as_ref().unwrap();
    assert_eq!(f0.name.as_deref(), Some("f"));
    assert_eq!(f0.arguments.as_deref(), Some(""));
    assert_eq!(calls[1].id, None);
    let f1 = calls[1].function.as_ref().unwrap();
    assert_eq!(f1.name, None);
    assert_eq!(f1.arguments.as_deref(), Some("{\"a"));
    assert_eq!(calls[2].index, 2);
    assert!(calls[2].function.is_none());
}

#[test]
fn one_bad_tool_call_rejects_the_list() {
    let doc = parse_json("[{\"index\":0},{\"id\":\"x\"},{\"index\":2}]").unwrap();
    assert!(decode_items::<ToolCallDelta>(doc.as_array().unwrap()).is_err());
    let ok = parse_json("[]").unwrap();
    assert!(decode_items::<ToolCallDelta>(ok.as_array().unwrap()).unwrap().is_empty());
}

#[test]
fn delta_shapes() {
    assert!(Delta::decode(&parse_json("{}").unwrap()).is_ok());
    assert!(Delta::decode(&parse_json("{\"tool_calls\":null}").unwrap()).unwrap().tool_calls.is_none());
    assert!(Delta::decode(&parse_json("{\"tool_calls\":{}}").unwrap()).is_err());
    assert!(Delta::decode(&parse_json("{\"content\":1}").unwrap()).is_err());
    assert!(Delta::decode(&parse_json("\"text\"").unwrap()).is_err());
    assert!(Delta::decode(&Json::Null).is_err());
    assert!(FunctionDelta::decode(&parse_json("[]").unwrap()).is_err());
    assert!(FunctionDelta::decode(&parse_json("{\"name\":null}").unwrap()).is_ok());
    assert!(ToolCallDelta::decode(&parse_json("{\"index\":0,\"function\":7}").unwrap()).is_err());
    assert!(ToolCallDelta::decode(&parse_json("{\"index\":0,\"function\":null}").unwrap())
        .unwrap()
        .function
        .is_none());
}

#[test]
fn choice_needs_index_and_delta() {
    assert!(StreamChoice::decode(&parse_json("{\"index\":0,\"delta\":{}}").unwrap()).is_ok());
    assert!(StreamChoice::decode(&parse_json("{\"delta\":{}}").unwrap()).is_err());
    assert!(StreamChoice::decode(&parse_json("{\"index\":0}").unwrap()).is_err());
    let done = StreamChoice::decode(
        &parse_json("{\"index\":1,\"delta\":{},\"finish_reason\":\"stop\"}").unwrap(),
    )
    .unwrap();
    assert_eq!(done.finish_reason.as_deref(), Some("stop"));
    assert_eq!(done.index, 1);
}

#[test]
fn chunk_needs_its_required_fields() {
    assert!(StreamChunk::decode(&parse_json(CHUNK).unwrap()).is_ok());
    for key in ["id", "object", "created", "model", "choices"] {
        let mut members = match parse_json(CHUNK).unwrap() {
            Json::Object(m) => m,
            other => panic!("unexpected: {:?}", other),
        };
        members.retain(|(k, _)| k != key);
        assert!(StreamChunk::decode(&Json::Object(members)).is_err(), "without {}", key);
    }
    let bad = CHUNK.replace("\"index\":0", "\"index\":\"0\"");
    assert!(StreamChunk::decode(&parse_json(&bad).unwrap()).is_err());
    let big = CHUNK.replace("1700000000", "9223372036854775807");
    assert_eq!(StreamChunk::decode(&parse_json(&big).unwrap()).unwrap().created, i64::MAX);
    let too_big = CHUNK.replace("1700000000", "9223372036854775808");
    assert!(StreamChunk::decode(&parse_json(&too_big).unwrap()).is_err());
}

#[test]
fn openai_error_messages() {
    assert_eq!(
        OpenAIError::ApiError { message: "m".to_string(), code: Some("c".to_string()) }.message(),
        "API error: m (code: Some(\"c\"))"
    );
    assert_eq!(
        OpenAIError::ApiError { message: "m".to_string(), code: None }.message(),
        "API error: m (code: None)"
    );
    assert_eq!(OpenAIError::InvalidResponse("x".to_string()).message(), "Invalid response: x");
    let e = parse_json("nope").unwrap_err();
    let text = e.to_string();
    assert_eq!(OpenAIError::from(e).message(), format!("JSON error: {}", text));
}

#[test]
fn the_first_item_at_fault_fails_the_list_with_its_error() {
    let doc = parse_json("[{\"index\":0},{\"id\":\"x\"},{\"index\":\"2\"}]").unwrap();
    let e = decode_items::<ToolCallDelta>(doc.as_array().unwrap()).unwrap_err();
    assert_eq!(e.to_string(), "missing field `index`");
    let doc = parse_json("[{\"index\":0},{\"index\":1,\"function\":3}]").unwrap();
    let e = decode_items::<ToolCallDelta>(doc.as_array().unwrap()).unwrap_err();
    assert_eq!(e.to_string(), "invalid type: expected an object for `function`");
    let chunk = CHUNK.replace("\"delta\":{\"role\":\"assistant\",\"content\":\"Hi\"}", "\"delta\":{\"tool_calls\":{}}");
    let e = StreamChunk::decode(&parse_json(&chunk).unwrap()).unwrap_err();
    assert_eq!(e.to_string(), "invalid type: expected an array for field `tool_calls`");
}

use llm_gateway::json::{parse_json, Json};
use llm_gateway::providers::google::stream::{decode_payload, strip_trailing_comma, GoogleStream};
use llm_gateway::providers::google::types::{decode_response, GenerateContentResponse};
use llm_gateway::providers::google::GoogleError;
use llm_gateway::stream::{SourceEvent, StreamPoll};

fn bytes_of(parts: &[&str]) -> Vec<Vec<u8>> {
    parts.iter().map(|p| p.as_bytes().to_vec()).collect()
}

fn foo_of(item: &Result<GenerateContentResponse, GoogleError>) -> i64 {
    match item {
        Ok(response) => {
            assert_eq!(response.members.len(), 1);
            assert_eq!(response.members[0].0, "foo");
            response.members[0].1.as_i64().unwrap()
        }
        Err(e) => panic!("unexpected: {:?}", e),
    }
}

#[test]
fn array_elements_on_their_own_lines_decode_in_order() {
    let items = GoogleStream::collect(&bytes_of(&["[\n", "{\"foo\":1},\n", "{\"foo\":2}\n", "]\n"]));
    assert_eq!(items.len(), 2);
    assert_eq!(foo_of(&items[0]), 1);
    assert_eq!(foo_of(&items[1]), 2);
}

#[test]
fn last_bracket_without_newline_gives_no_event() {
    let items = GoogleStream::collect(&bytes_of(&["[\n", "{\"foo\":1},\n", "{\"foo\":2}\n", "]"]));
    assert_eq!(items.len(), 2);
    assert_eq!(foo_of(&items[1]), 2);
}

#[test]
fn pieces_without_line_feeds_are_one_record() {
    let items = GoogleStream::collect(&bytes_of(&["[", "{\"foo\":1},", "{\"foo\":2}", "]"]));
    assert_eq!(items.len(), 1);
    assert!(matches!(items[0], Err(GoogleError::SerdeJson(_))));
}

#[test]
fn brackets_are_compared_after_trimming() {
    let mut stream = GoogleStream::new();
    assert!(stream.parse_chunk("").is_none());
    assert!(stream.parse_chunk("[").is_none());
    assert!(stream.parse_chunk("]").is_none());
    assert!(stream.parse_chunk(" [ ").is_none());
    assert!(stream.parse_chunk("\t]\r").is_none());
    assert!(stream.parse_chunk("  ").is_none());
    assert!(stream.parse_chunk("\r").is_none());
    assert!(stream.parse_chunk("\u{a0}\t").is_none());
    assert!(matches!(stream.parse_chunk(","), Some(Err(GoogleError::SerdeJson(_)))));
    assert!(matches!(stream.parse_chunk("[]"), Some(Err(GoogleError::SerdeJson(_)))));
    assert!(matches!(stream.parse_chunk("[{\"foo\":1},"), Some(Err(GoogleError::SerdeJson(_)))));
}

#[test]
fn a_blank_tail_at_the_end_of_the_body_gives_no_event() {
    let items = GoogleStream::collect(&bytes_of(&["[\r\n{\"foo\":1}\r\n]\r\n  "]));
    assert_eq!(items.len(), 1);
    assert_eq!(foo_of(&items[0]), 1);
    assert!(GoogleStream::collect(&bytes_of(&[" \t "])).is_empty());
    assert!(GoogleStream::collect(&bytes_of(&["\r"])).is_empty());
}

#[test]
fn one_trailing_comma_is_taken_off() {
    assert_eq!(strip_trailing_comma("{\"a\":1},"), "{\"a\":1}");
    assert_eq!(strip_trailing_comma("{\"a\":1},,"), "{\"a\":1},");
    assert_eq!(strip_trailing_comma("{\"a\":1}"), "{\"a\":1}");
    assert_eq!(strip_trailing_comma(","), "");
    assert_eq!(strip_trailing_comma(""), "");
    assert_eq!(strip_trailing_comma("é,"), "é");
    let mut stream = GoogleStream::new();
    assert!(matches!(stream.parse_chunk(" {\"a\":1}, "), Some(Ok(_))));
    assert!(matches!(stream.parse_chunk("{\"a\":1} ,"), Some(Ok(_))));
    assert!(matches!(stream.parse_chunk("{\"a\":1},,"), Some(Err(GoogleError::SerdeJson(_)))));
}

#[test]
fn an_element_must_be_an_object() {
    assert!(matches!(decode_payload("{}"), Ok(_)));
    assert!(matches!(decode_payload("7"), Err(GoogleError::SerdeJson(_))));
    assert!(matches!(decode_payload("\"x\""), Err(GoogleError::SerdeJson(_))));
    assert!(matches!(decode_payload("null"), Err(GoogleError::SerdeJson(_))));
    assert!(matches!(decode_payload("{\"a\""), Err(GoogleError::SerdeJson(_))));
    assert!(decode_response(Json::Array(Vec::new())).is_err());
    let response = decode_response(parse_json("{\"b\":[true],\"a\":\"x\"}").unwrap()).unwrap();
    assert_eq!(response.members.len(), 2);
    let a = response.members.iter().find(|(k, _)| k == "a").unwrap();
    assert_eq!(a.1.as_str(), Some("x"));
}

#[test]
fn whole_response_objects_with_nested_content() {
    let body = "[{\"candidates\":[{\"content\":{\"parts\":[{\"text\":\"Hel\"}]}}]}\n,\r\n{\"candidates\":[{\"content\":{\"parts\":[{\"text\":\"lo\"}]},\"finishReason\":\"STOP\"}]}\n]";
    let items = GoogleStream::collect(&bytes_of(&[body]));
    assert_eq!(items.len(), 3);
    assert!(items[0].is_err());
    assert!(matches!(items[1], Err(GoogleError::SerdeJson(_))));
    assert!(items[2].is_ok());
}

#[test]
fn element_per_line_body_is_chunking_invariant() {
    let body = "[\n{\"foo\":1},\n{\"foo\":2},\n  {\"foo\":3}  \n]\n";
    let whole = GoogleStream::collect(&bytes_of(&[body]));
    assert_eq!(whole.len(), 3);
    let bytes = body.as_bytes();
    let single: Vec<Vec<u8>> = bytes.iter().map(|b| vec![*b]).collect();
    let by_byte = GoogleStream::collect(&single);
    assert_eq!(by_byte.len(), 3);
    for (i, item) in by_byte.iter().enumerate() {
        assert_eq!(foo_of(item), i as i64 + 1);
    }
    for cut in 0..=bytes.len() {
        let two = vec![bytes[..cut].to_vec(), bytes[cut..].to_vec()];
        let items = GoogleStream::collect(&two);
        assert_eq!(items.len(), 3, "cut at {}", cut);
        for (i, item) in items.iter().enumerate() {
            assert_eq!(foo_of(item), i as i64 + 1);
        }
    }
}

#[test]
fn google_decode_failure_is_isolated() {
    let mut stream = GoogleStream::new();
    let body = b"[\n{\"foo\":1},\n{broken},\n{\"foo\":3}\n]\n";
    assert!(matches!(stream.poll_next(SourceEvent::Chunk(body)), StreamPoll::Item(Ok(_))));
    assert!(matches!(
        stream.poll_next(SourceEvent::Resumed),
        StreamPoll::Item(Err(GoogleError::SerdeJson(_)))
    ));
    assert!(matches!(stream.poll_next(SourceEvent::Resumed), StreamPoll::Item(Ok(_))));
    assert!(matches!(stream.poll_next(SourceEvent::Resumed), StreamPoll::NeedMoreData));
    assert!(matches!(stream.poll_next(SourceEvent::Finished), StreamPoll::EndOfStream));
    assert!(matches!(stream.poll_next(SourceEvent::Resumed), StreamPoll::EndOfStream));
    assert!(stream.is_ended());
}

#[test]
fn google_transport_failure() {
    let mut stream = GoogleStream::new();
    let error = reqwest::Client::new().get("not a url").build().unwrap_err();
    assert!(matches!(stream.poll_next(SourceEvent::Chunk(b"[\n{\"fo")), StreamPoll::NeedMoreData));
    assert!(matches!(
        stream.poll_next(SourceEvent::Failed(error)),
        StreamPoll::Item(Err(GoogleError::Reqwest(_)))
    ));
    assert!(matches!(stream.poll_next(SourceEvent::Finished), StreamPoll::EndOfStream));
}

#[test]
fn google_error_messages() {
    assert_eq!(
        GoogleError::ApiError { message: "quota".to_string(), code: Some(429) }.message(),
        "API error: quota (code: Some(429))"
    );
    assert_eq!(
        GoogleError::ApiError { message: "quota".to_string(), code: Some(-1) }.message(),
        "API error: quota (code: Some(-1))"
    );
    assert_eq!(
        GoogleError::ApiError { message: "quota".to_string(), code: None }.message(),
        "API error: quota (code: None)"
    );
    assert_eq!(GoogleError::InvalidResponse("".to_string()).message(), "Invalid response: ");
}

#[test]
fn google_decode_failure_carries_its_cause() {
    match decode_payload("[]") {
        Err(GoogleError::SerdeJson(e)) => {
            assert_eq!(e.to_string(), "invalid type: expected an object for `response`")
        }
        other => panic!("unexpected: {:?}", other),
    }
    let parse_failure = parse_json("{\"a\"").unwrap_err().to_string();
    match decode_payload("{\"a\"") {
        Err(GoogleError::SerdeJson(e)) => assert_eq!(e.to_string(), parse_failure),
        other => panic!("unexpected: {:?}", other),
    }
}

use llm_gateway::json::{parse_json, FromJson};
use llm_gateway::providers::openai::types::{
    ChatCompletionResponse, Choice, FunctionCall, ImageData, ImageGenerationResponse, Model,
    ModelListResponse, ResponseMessage, ToolCall, Usage,
};

#[test]
fn model_list_decodes() {
    let doc = parse_json(
        "{\"object\":\"list\",\"data\":[{\"id\":\"gpt-4o\",\"object\":\"model\",\"created\":1715367049,\"owned_by\":\"system\"},{\"id\":\"dall-e-3\",\"object\":\"model\",\"created\":1698785189,\"owned_by\":\"system\",\"extra\":1}]}",
    )
    .unwrap();
    let list = ModelListResponse::decode(&doc).unwrap();
    assert_eq!(list.data.len(), 2);
    assert_eq!(list.data[0].id, "gpt-4o");
    assert_eq!(list.data[0].object, "model");
    assert_eq!(list.data[0].created, 1715367049);
    assert_eq!(list.data[0].owned_by, "system");
    assert_eq!(list.data[1].id, "dall-e-3");
}

#[test]
fn model_list_rejects_a_bad_entry() {
    assert!(ModelListResponse::decode(&parse_json("{\"data\":[{\"id\":\"x\"}]}").unwrap()).is_err());
    assert!(ModelListResponse::decode(&parse_json("{\"data\":{}}").unwrap()).is_err());
    assert!(ModelListResponse::decode(&parse_json("{}").unwrap()).is_err());
    assert!(ModelListResponse::decode(&parse_json("{\"data\":[]}").unwrap()).unwrap().data.is_empty());
    assert!(Model::decode(&parse_json("{\"id\":\"x\",\"object\":\"model\",\"created\":\"1\",\"owned_by\":\"o\"}").unwrap()).is_err());
}

#[test]
fn chat_completion_decodes() {
    let doc = parse_json(
        "{\"id\":\"chatcmpl-1\",\"object\":\"chat.completion\",\"created\":1,\"model\":\"gpt-4o\",\"choices\":[{\"index\":0,\"message\":{\"role\":\"assistant\",\"content\":null,\"tool_calls\":[{\"id\":\"call_1\",\"type\":\"function\",\"function\":{\"name\":\"get\",\"arguments\":\"{}\"}}]},\"finish_reason\":\"tool_calls\"}],\"usage\":{\"prompt_tokens\":9,\"completion_tokens\":12,\"total_tokens\":21}}",
    )
    .unwrap();
    let response = ChatCompletionResponse::decode(&doc).unwrap();
    assert_eq!(response.id, "chatcmpl-1");
    assert_eq!(response.object, "chat.completion");
    assert_eq!(response.created, 1);
    assert_eq!(response.model, "gpt-4o");
    assert_eq!(
        response.usage,
        Some(Usage { prompt_tokens: 9, completion_tokens: 12, total_tokens: 21 })
    );
    assert_eq!(response.choices.len(), 1);
    let choice = &response.choices[0];
    assert_eq!(choice.index, 0);
    assert_eq!(choice.finish_reason.as_deref(), Some("tool_calls"));
    assert_eq!(choice.message.role, "assistant");
    assert_eq!(choice.message.content, None);
    let calls = choice.message.tool_calls.as_ref().unwrap();
    assert_eq!(calls.len(), 1);
    assert_eq!(calls[0].id, "call_1");
    assert_eq!(calls[0].call_type, "function");
    assert_eq!(calls[0].function.name, "get");
    assert_eq!(calls[0].function.arguments, "{}");
}

#[test]
fn chat_completion_usage_is_optional() {
    let doc = parse_json(
        "{\"id\":\"i\",\"object\":\"o\",\"created\":1,\"model\":\"m\",\"choices\":[]}",
    )
    .unwrap();
    let response = ChatCompletionResponse::decode(&doc).unwrap();
    assert!(response.choices.is_empty());
    assert_eq!(response.usage, None);
    let with_null = parse_json(
        "{\"id\":\"i\",\"object\":\"o\",\"created\":1,\"model\":\"m\",\"choices\":[],\"usage\":null}",
    )
    .unwrap();
    assert_eq!(ChatCompletionResponse::decode(&with_null).unwrap().usage, None);
    let bad_usage = parse_json(
        "{\"id\":\"i\",\"object\":\"o\",\"created\":1,\"model\":\"m\",\"choices\":[],\"usage\":{\"prompt_tokens\":1}}",
    )
    .unwrap();
    assert!(ChatCompletionResponse::decode(&bad_usage).is_err());
    let no_choices =
        parse_json("{\"id\":\"i\",\"object\":\"o\",\"created\":1,\"model\":\"m\"}").unwrap();
    assert!(ChatCompletionResponse::decode(&no_choices).is_err());
}

#[test]
fn parts_of_a_chat_completion() {
    assert!(Usage::decode(&parse_json("{\"prompt_tokens\":1,\"completion_tokens\":2,\"total_tokens\":3}").unwrap()).is_ok());
    assert!(Usage::decode(&parse_json("{\"prompt_tokens\":1,\"completion_tokens\":2}").unwrap()).is_err());
    assert!(FunctionCall::decode(&parse_json("{\"name\":\"n\",\"arguments\":\"a\"}").unwrap()).is_ok());
    assert!(FunctionCall::decode(&parse_json("{\"name\":\"n\"}").unwrap()).is_err());
    assert!(ToolCall::decode(&parse_json("{\"id\":\"i\",\"type\":\"function\"}").unwrap()).is_err());
    assert!(ResponseMessage::decode(&parse_json("{\"content\":\"x\"}").unwrap()).is_err());
    let message = ResponseMessage::decode(&parse_json("{\"role\":\"assistant\",\"content\":\"x\"}").unwrap()).unwrap();
    assert_eq!(message.content.as_deref(), Some("x"));
    assert!(message.tool_calls.is_none());
    assert!(ResponseMessage::decode(&parse_json("{\"role\":\"a\",\"tool_calls\":[{}]}").unwrap()).is_err());
    assert!(Choice::decode(&parse_json("{\"index\":0,\"message\":{\"role\":\"a\"}}").unwrap()).is_ok());
    assert!(Choice::decode(&parse_json("{\"index\":0}").unwrap()).is_err());
}

#[test]
fn image_generation_decodes() {
    let doc = parse_json(
        "{\"created\":5,\"data\":[{\"url\":\"https://x/1.png\",\"revised_prompt\":\"a cat\"},{\"b64_json\":\"QUJD\"},{}]}",
    )
    .unwrap();
    let response = ImageGenerationResponse::decode(&doc).unwrap();
    assert_eq!(response.created, 5);
    assert_eq!(response.data.len(), 3);
    assert_eq!(response.data[0].url.as_deref(), Some("https://x/1.png"));
    assert_eq!(response.data[0].b64_json, None);
    assert_eq!(response.data[0].revised_prompt.as_deref(), Some("a cat"));
    assert_eq!(response.data[1].b64_json.as_deref(), Some("QUJD"));
    assert_eq!(response.data[2].url, None);
    assert!(ImageGenerationResponse::decode(&parse_json("{\"data\":[]}").unwrap()).is_err());
    assert!(ImageGenerationResponse::decode(&parse_json("{\"created\":1,\"data\":[7]}").unwrap()).is_err());
    assert!(ImageData::decode(&parse_json("{\"url\":5}").unwrap()).is_err());
    assert!(ImageData::decode(&parse_json("\"url\"").unwrap()).is_err());
}

use llm_gateway::providers::anthropic::AnthropicClient;
use llm_gateway::providers::google::GoogleClient;
use llm_gateway::providers::openai::{OpenAIClient, OpenAIError};

#[test]
fn anthropic_settings() {
    let client = AnthropicClient::new("key-1".to_string());
    assert_eq!(client.api_key(), "key-1");
    assert_eq!(client.base_url(), "https://api.anthropic.com/v1");
    assert_eq!(client.api_version(), "2023-06-01");
    assert_eq!(client.messages_url(), "https://api.anthropic.com/v1/messages");
    let moved = client.with_base_url("http://localhost:8080".to_string());
    assert_eq!(moved.api_key(), "key-1");
    assert_eq!(moved.api_version(), "2023-06-01");
    assert_eq!(moved.base_url(), "http://localhost:8080");
    assert_eq!(moved.messages_url(), "http://localhost:8080/messages");
}

#[test]
fn openai_settings() {
    let client = OpenAIClient::new("sk".to_string());
    assert_eq!(client.api_key(), "sk");
    assert_eq!(client.base_url(), "https://api.openai.com/v1");
    assert_eq!(client.models_url(), "https://api.openai.com/v1/models");
    assert_eq!(client.chat_completions_url(), "https://api.openai.com/v1/chat/completions");
    assert_eq!(client.image_generations_url(), "https://api.openai.com/v1/images/generations");
    let moved = client.with_base_url("http://proxy/v1".to_string());
    assert_eq!(moved.api_key(), "sk");
    assert_eq!(moved.models_url(), "http://proxy/v1/models");
    assert_eq!(moved.chat_completions_url(), "http://proxy/v1/chat/completions");
    assert_eq!(moved.image_generations_url(), "http://proxy/v1/images/generations");
}

#[test]
fn google_settings() {
    let client = GoogleClient::new("k".to_string());
    assert_eq!(client.api_key(), "k");
    assert_eq!(client.base_url(), "https://generativelanguage.googleapis.com/v1beta");
    assert_eq!(
        client.models_url(),
        "https://generativelanguage.googleapis.com/v1beta/models?key=k"
    );
    assert_eq!(
        client.generate_content_url("gemini-1.5-pro"),
        "https://generativelanguage.googleapis.com/v1beta/models/gemini-1.5-pro:generateContent?key=k"
    );
    assert_eq!(
        client.stream_generate_content_url("gemini-1.5-flash"),
        "https://generativelanguage.googleapis.com/v1beta/models/gemini-1.5-flash:streamGenerateContent?key=k"
    );
    let moved = client.with_base_url("http://h".to_string());
    assert_eq!(moved.models_url(), "http://h/models?key=k");
    assert_eq!(moved.generate_content_url("m"), "http://h/models/m:generateContent?key=k");
    assert_eq!(
        moved.stream_generate_content_url("m"),
        "http://h/models/m:streamGenerateContent?key=k"
    );
}

#[test]
fn openai_reads_bodies() {
    let models = OpenAIClient::read_model_list(
        "{\"data\":[{\"id\":\"a\",\"object\":\"model\",\"created\":1,\"owned_by\":\"o\"}]}",
    )
    .unwrap();
    assert_eq!(models.len(), 1);
    assert_eq!(models[0].id, "a");
    assert!(matches!(OpenAIClient::read_model_list("{\"data\":7}"), Err(OpenAIError::SerdeJson(_))));
    assert!(matches!(OpenAIClient::read_model_list("<html>"), Err(OpenAIError::SerdeJson(_))));

    let completion = OpenAIClient::read_chat_completion(
        "{\"id\":\"i\",\"object\":\"o\",\"created\":2,\"model\":\"m\",\"choices\":[{\"index\":0,\"message\":{\"role\":\"assistant\",\"content\":\"hi\"},\"finish_reason\":\"stop\"}]}",
    )
    .unwrap();
    assert_eq!(completion.choices[0].message.content.as_deref(), Some("hi"));
    assert!(matches!(
        OpenAIClient::read_chat_completion("{\"id\":\"i\"}"),
        Err(OpenAIError::SerdeJson(_))
    ));
    assert!(matches!(OpenAIClient::read_chat_completion(""), Err(OpenAIError::SerdeJson(_))));

    let images = OpenAIClient::read_image_generation("{\"created\":3,\"data\":[{\"url\":\"u\"}]}")
        .unwrap();
    assert_eq!(images.created, 3);
    assert_eq!(images.data[0].url.as_deref(), Some("u"));
    assert!(matches!(
        OpenAIClient::read_image_generation("{\"created\":3}"),
        Err(OpenAIError::SerdeJson(_))
    ));
    assert!(matches!(OpenAIClient::read_image_generation("]"), Err(OpenAIError::SerdeJson(_))));
}

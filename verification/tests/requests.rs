use anthropic_client::anthropic_api::client::AnthropicClient;
use anthropic_client::anthropic_api::embeddings::EmbeddingsRequest;
use anthropic_client::anthropic_api::messages::MessageRequest;
use anthropic_client::anthropic_api::text_completions::TextCompletionRequest;
use anthropic_client::http::{prepare, PostRequest};
use anthropic_client::request_client::RequestClient;
use serde_json::Value;

fn header_pairs(request: &PostRequest) -> Vec<(String, String)> {
    request.headers.iter().map(|header| (header.name.clone(), header.value.clone())).collect()
}

fn fixed(key: &str) -> Vec<(String, String)> {
    vec![
        ("content-type".to_string(), "application/json".to_string()),
        ("x-api-key".to_string(), key.to_string()),
        ("anthropic-version".to_string(), "2023-06-01".to_string()),
    ]
}

#[test]
fn text_completions_are_posted_to_complete() {
    let client = AnthropicClient::new("https://api.example.com/v1", "sk-test");
    let request = client
        .text_completions()
        .create(TextCompletionRequest::new("m".to_string(), "p".to_string()));
    assert_eq!(request.url, "https://api.example.com/v1/complete");
    assert_eq!(request.body, "{\"model\":\"m\",\"prompt\":\"p\"}");
}

#[test]
fn messages_are_posted_to_messages() {
    let client = AnthropicClient::new("https://api.example.com/v1", "sk-test");
    let request = client.messages().create(MessageRequest::new("m".to_string(), vec![]).stream(true));
    assert_eq!(request.url, "https://api.example.com/v1/messages");
    assert_eq!(request.body, "{\"model\":\"m\",\"messages\":[],\"stream\":true}");
}

#[test]
fn embeddings_are_posted_to_embeddings() {
    let client = AnthropicClient::new("https://api.example.com/v1", "sk-test");
    let request =
        client.embeddings().create(EmbeddingsRequest::new("m".to_string(), vec!["x".to_string()]));
    assert_eq!(request.url, "https://api.example.com/v1/embeddings");
    assert_eq!(request.body, "{\"input\":[\"x\"],\"model\":\"m\"}");
}

#[test]
fn every_request_carries_the_three_headers() {
    let client = AnthropicClient::new("http://localhost:8080", "secret-key");
    let one = client
        .text_completions()
        .create(TextCompletionRequest::new("m".to_string(), "p".to_string()));
    let two = client.messages().create(MessageRequest::new("m".to_string(), vec![]));
    let three = client.embeddings().create(EmbeddingsRequest::new("m".to_string(), vec![]));
    let four = client.post("/anything", "{}".to_string());
    for request in [&one, &two, &three, &four] {
        assert_eq!(header_pairs(request), fixed("secret-key"));
    }
}

#[test]
fn post_appends_the_path_as_it_is() {
    let client = AnthropicClient::new("http://host/", "k");
    let request = client.post("/complete", "{\"a\":1}".to_string());
    assert_eq!(request.url, "http://host//complete");
    assert_eq!(request.body, "{\"a\":1}");
    let bare = AnthropicClient::new("", "k").post("", String::new());
    assert_eq!(bare.url, "");
    assert_eq!(bare.body, "");
}

#[test]
fn the_endpoints_can_be_taken_again_and_again() {
    let client = AnthropicClient::new("http://host", "k");
    let first = client.messages();
    let second = client.messages();
    let one = first.create(MessageRequest::new("a".to_string(), vec![]));
    let two = second.create(MessageRequest::new("a".to_string(), vec![]));
    assert_eq!(one.url, two.url);
    assert_eq!(one.body, two.body);
    assert_eq!(header_pairs(&one), header_pairs(&two));
}

#[test]
fn prepare_keeps_address_key_and_body() {
    let request = prepare("http://host/x".to_string(), "the key", "[1,2]".to_string());
    assert_eq!(request.url, "http://host/x");
    assert_eq!(request.body, "[1,2]");
    assert_eq!(header_pairs(&request), fixed("the key"));
}

#[test]
fn request_client_posts_a_document_to_a_full_address() {
    let client = RequestClient::new("abc".to_string());
    let mut map = serde_json::Map::new();
    map.insert("b".to_string(), Value::Array(vec![Value::Null, Value::Bool(false)]));
    map.insert("a".to_string(), Value::String("x y".to_string()));
    let request = client.post("https://elsewhere.example/v2/run", &Value::Object(map));
    assert_eq!(request.url, "https://elsewhere.example/v2/run");
    assert_eq!(request.body, "{\"a\":\"x y\",\"b\":[null,false]}");
    assert_eq!(header_pairs(&request), fixed("abc"));
}

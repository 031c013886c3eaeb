use anthropic_client::anthropic_api::embeddings::EmbeddingsRequest;
use anthropic_client::anthropic_api::messages::MessageRequest;
use anthropic_client::anthropic_api::text_completions::TextCompletionRequest;
use serde_json::{Number, Value};

fn parse(text: &str) -> serde_json::Map<String, Value> {
    match serde_json::from_str::<Value>(text) {
        Ok(Value::Object(map)) => map,
        other => panic!("not an object: {:?}", other),
    }
}

fn keys(text: &str) -> Vec<String> {
    parse(text).keys().cloned().collect()
}

fn number(value: f64) -> Number {
    Number::from_f64(value).unwrap()
}

fn user_says_hi() -> Value {
    let mut message = serde_json::Map::new();
    message.insert("role".to_string(), Value::String("user".to_string()));
    message.insert("content".to_string(), Value::String("hi".to_string()));
    Value::Object(message)
}

#[test]
fn message_with_temperature_matches_the_documented_body() {
    let request =
        MessageRequest::new("model-3".to_string(), vec![user_says_hi()]).temperature(number(0.7));
    let body = request.to_json();
    let expected = serde_json::from_str::<Value>(
        "{\"model\":\"model-3\",\"messages\":[{\"role\":\"user\",\"content\":\"hi\"}],\"temperature\":0.7}",
    )
    .unwrap();
    assert_eq!(serde_json::from_str::<Value>(&body).unwrap(), expected);
    assert_eq!(keys(&body), vec!["messages", "model", "temperature"]);
    assert_eq!(
        body,
        "{\"model\":\"model-3\",\"messages\":[{\"content\":\"hi\",\"role\":\"user\"}],\"temperature\":0.7}"
    );
}

#[test]
fn text_completion_without_setters_holds_only_the_required_fields() {
    let body = TextCompletionRequest::new("m".to_string(), "p".to_string()).to_json();
    assert_eq!(body, "{\"model\":\"m\",\"prompt\":\"p\"}");
    let map = parse(&body);
    for key in ["max_tokens_to_sample", "stop_sequences", "temperature", "top_p", "top_k"] {
        assert!(!map.contains_key(key), "{key} must be absent");
    }
}

#[test]
fn message_without_setters_holds_only_the_required_fields() {
    let body = MessageRequest::new("m".to_string(), vec![]).to_json();
    assert_eq!(body, "{\"model\":\"m\",\"messages\":[]}");
    let map = parse(&body);
    for key in ["max_tokens", "temperature", "stop_sequences", "stream"] {
        assert!(!map.contains_key(key), "{key} must be absent");
    }
}

#[test]
fn embeddings_without_setters_holds_only_the_required_fields() {
    let body = EmbeddingsRequest::new("m".to_string(), vec!["a".to_string()]).to_json();
    assert_eq!(body, "{\"input\":[\"a\"],\"model\":\"m\"}");
    let map = parse(&body);
    for key in ["input_type", "truncation", "encoding_format"] {
        assert!(!map.contains_key(key), "{key} must be absent");
    }
}

#[test]
fn embeddings_inputs_go_out_under_input() {
    let body =
        EmbeddingsRequest::new("voyage".to_string(), vec!["one".to_string(), "two".to_string()])
            .to_json();
    let map = parse(&body);
    assert_eq!(
        map.get("input"),
        Some(&Value::Array(vec![
            Value::String("one".to_string()),
            Value::String("two".to_string())
        ]))
    );
    assert!(!map.contains_key("inputs"));
    assert_eq!(map.get("model"), Some(&Value::String("voyage".to_string())));
}

#[test]
fn embeddings_with_every_field_set() {
    let body = EmbeddingsRequest::new("m".to_string(), vec![])
        .input_type("query".to_string())
        .truncation(false)
        .encoding_format("base64".to_string())
        .to_json();
    assert_eq!(
        body,
        "{\"input\":[],\"model\":\"m\",\"input_type\":\"query\",\"truncation\":false,\"encoding_format\":\"base64\"}"
    );
}

#[test]
fn text_completion_with_every_field_set() {
    let body = TextCompletionRequest::new("model-2".to_string(), "Hello".to_string())
        .max_tokens_to_sample(256)
        .stop_sequences(vec!["\n\nHuman:".to_string(), "END".to_string()])
        .temperature(number(1.5))
        .top_p(number(0.25))
        .top_k(40)
        .to_json();
    assert_eq!(
        body,
        "{\"model\":\"model-2\",\"prompt\":\"Hello\",\"max_tokens_to_sample\":256,\"stop_sequences\":[\"\\n\\nHuman:\",\"END\"],\"temperature\":1.5,\"top_p\":0.25,\"top_k\":40}"
    );
}

#[test]
fn message_with_every_field_set() {
    let body = MessageRequest::new("model-3".to_string(), vec![user_says_hi(), Value::Null])
        .max_tokens(1024)
        .temperature(number(0.0))
        .stop_sequences(vec![])
        .stream(true)
        .to_json();
    assert_eq!(
        body,
        "{\"model\":\"model-3\",\"messages\":[{\"content\":\"hi\",\"role\":\"user\"},null],\"max_tokens\":1024,\"temperature\":0.0,\"stop_sequences\":[],\"stream\":true}"
    );
}

#[test]
fn each_setter_adds_exactly_its_own_key() {
    let bare = keys(&TextCompletionRequest::new("m".to_string(), "p".to_string()).to_json());
    assert_eq!(bare, vec!["model", "prompt"]);
    let new = || TextCompletionRequest::new("m".to_string(), "p".to_string());
    assert_eq!(
        parse(&new().max_tokens_to_sample(7).to_json()).get("max_tokens_to_sample"),
        Some(&Value::from(7u64))
    );
    assert_eq!(keys(&new().max_tokens_to_sample(7).to_json()).len(), 3);
    assert_eq!(parse(&new().top_k(3).to_json()).get("top_k"), Some(&Value::from(3u64)));
    assert_eq!(keys(&new().top_k(3).to_json()).len(), 3);
    assert_eq!(parse(&new().top_p(number(0.5)).to_json()).get("top_p"), Some(&Value::from(0.5)));
    assert_eq!(keys(&new().top_p(number(0.5)).to_json()).len(), 3);
    assert_eq!(
        parse(&new().temperature(number(2.5)).to_json()).get("temperature"),
        Some(&Value::from(2.5))
    );
    assert_eq!(
        parse(&new().stop_sequences(vec!["x".to_string()]).to_json()).get("stop_sequences"),
        Some(&Value::Array(vec![Value::String("x".to_string())]))
    );
}

#[test]
fn the_order_of_the_setters_does_not_change_the_body() {
    let one = MessageRequest::new("m".to_string(), vec![])
        .stream(false)
        .max_tokens(5)
        .temperature(number(0.5))
        .to_json();
    let other = MessageRequest::new("m".to_string(), vec![])
        .temperature(number(0.5))
        .stream(false)
        .max_tokens(5)
        .to_json();
    assert_eq!(one, other);
    assert_eq!(
        one,
        "{\"model\":\"m\",\"messages\":[],\"max_tokens\":5,\"temperature\":0.5,\"stream\":false}"
    );
}

#[test]
fn a_setter_called_twice_keeps_the_last_value() {
    let body = EmbeddingsRequest::new("m".to_string(), vec![])
        .truncation(true)
        .truncation(false)
        .input_type("a".to_string())
        .input_type("b".to_string())
        .to_json();
    assert_eq!(body, "{\"input\":[],\"model\":\"m\",\"input_type\":\"b\",\"truncation\":false}");
}

#[test]
fn the_same_inputs_give_the_same_bytes() {
    let build = || {
        TextCompletionRequest::new("m".to_string(), "say \"hi\"".to_string())
            .top_k(1)
            .temperature(number(0.1))
            .to_json()
    };
    assert_eq!(build().into_bytes(), build().into_bytes());
}

#[test]
fn strings_are_escaped_as_json_asks() {
    let body = TextCompletionRequest::new(
        "quote\" backslash\\".to_string(),
        "line\nbreak\ttab \u{1} caf\u{e9}".to_string(),
    )
    .to_json();
    assert_eq!(
        body,
        "{\"model\":\"quote\\\" backslash\\\\\",\"prompt\":\"line\\nbreak\\ttab \\u0001 caf\u{e9}\"}"
    );
    let map = parse(&body);
    assert_eq!(map.get("model"), Some(&Value::String("quote\" backslash\\".to_string())));
    assert_eq!(
        map.get("prompt"),
        Some(&Value::String("line\nbreak\ttab \u{1} caf\u{e9}".to_string()))
    );
}

#[test]
fn numbers_pass_through_unchanged() {
    let body = TextCompletionRequest::new("m".to_string(), "p".to_string())
        .max_tokens_to_sample(u64::MAX)
        .top_k(0)
        .temperature(number(-3.25))
        .top_p(Number::from(2u64))
        .to_json();
    assert_eq!(
        body,
        "{\"model\":\"m\",\"prompt\":\"p\",\"max_tokens_to_sample\":18446744073709551615,\"temperature\":-3.25,\"top_p\":2,\"top_k\":0}"
    );
}

#[test]
fn messages_keep_their_order() {
    let body = MessageRequest::new(
        "m".to_string(),
        vec![Value::from(1u64), Value::String("two".to_string()), Value::Bool(true)],
    )
    .to_json();
    assert_eq!(body, "{\"model\":\"m\",\"messages\":[1,\"two\",true]}");
}

#[test]
fn the_default_requests_are_empty() {
    assert_eq!(EmbeddingsRequest::default().to_json(), "{\"input\":[],\"model\":\"\"}");
    assert_eq!(MessageRequest::default().to_json(), "{\"model\":\"\",\"messages\":[]}");
    assert_eq!(TextCompletionRequest::default().to_json(), "{\"model\":\"\",\"prompt\":\"\"}");
}

#[test]
fn the_body_is_what_serde_json_writes_for_the_same_object() {
    let body = EmbeddingsRequest::new("m\u{7f}".to_string(), vec!["a,b".to_string(), "".to_string()])
        .truncation(true)
        .to_json();
    let mut map = serde_json::Map::new();
    map.insert(
        "input".to_string(),
        Value::Array(vec![Value::String("a,b".to_string()), Value::String("".to_string())]),
    );
    map.insert("model".to_string(), Value::String("m\u{7f}".to_string()));
    map.insert("truncation".to_string(), Value::Bool(true));
    assert_eq!(body, serde_json::to_string(&Value::Object(map)).unwrap());
}

use anthropic_client::http::{receive, receive_typed, ApiError, Reply, TypedReply};
use serde_json::Value;
use std::collections::HashMap;

fn read_embedding(body: &[u8]) -> TypedReply<HashMap<String, Vec<f64>>> {
    match serde_json::from_slice::<HashMap<String, Vec<f64>>>(body) {
        Ok(value) => TypedReply::Read(value),
        Err(error) => TypedReply::Unreadable(error.to_string()),
    }
}

#[test]
fn a_refused_connection_is_a_transport_error() {
    match receive(Reply::Failed("connection refused".to_string())) {
        Err(ApiError::Transport(message)) => assert_eq!(message, "connection refused"),
        other => panic!("expected a transport error, got {:?}", other),
    }
    match receive_typed::<Vec<f64>>(TypedReply::Failed("connection refused".to_string())) {
        Err(ApiError::Transport(message)) => assert_eq!(message, "connection refused"),
        other => panic!("expected a transport error, got {:?}", other),
    }
}

#[test]
fn an_unexpected_shape_is_a_deserialization_error() {
    let body = b"{\"unexpected\": \"shape\"}";
    match receive_typed(read_embedding(body)) {
        Err(ApiError::Deserialization(message)) => assert!(!message.is_empty()),
        other => panic!("expected a deserialization error, got {:?}", other),
    }
}

#[test]
fn the_expected_shape_is_read() {
    let body = b"{\"embedding\": [0.5, -1.0]}";
    match receive_typed(read_embedding(body)) {
        Ok(map) => assert_eq!(map.get("embedding"), Some(&vec![0.5, -1.0])),
        other => panic!("expected a value, got {:?}", other),
    }
}

#[test]
fn a_body_that_is_no_json_is_a_deserialization_error() {
    for body in ["", "{", "not json", "{\"a\":1} trailing", "{\"a\":1}{\"b\":2}", "[1,]"] {
        match receive(Reply::Body(body.as_bytes().to_vec())) {
            Err(ApiError::Deserialization(message)) => assert!(!message.is_empty()),
            other => panic!("expected a deserialization error for {:?}, got {:?}", body, other),
        }
    }
    match receive(Reply::Body(vec![0xff, 0xfe])) {
        Err(ApiError::Deserialization(_)) => {}
        other => panic!("expected a deserialization error, got {:?}", other),
    }
}

#[test]
fn a_json_body_is_handed_back_as_a_document() {
    let got = receive(Reply::Body(b" {\"completion\": \"Hi\", \"n\": [1, 2.5, null]} \n".to_vec()));
    let expected =
        serde_json::from_str::<Value>("{\"completion\":\"Hi\",\"n\":[1,2.5,null]}").unwrap();
    match got {
        Ok(value) => assert_eq!(value, expected),
        other => panic!("expected a document, got {:?}", other),
    }
    match receive(Reply::Body(b"{\"unexpected\": \"shape\"}".to_vec())) {
        Ok(value) => assert_eq!(value["unexpected"], Value::String("shape".to_string())),
        other => panic!("expected a document, got {:?}", other),
    }
}

#[test]
fn an_error_body_with_json_in_it_is_still_a_document() {
    let got = receive(Reply::Body(b"{\"error\":{\"type\":\"invalid_request_error\"}}".to_vec()));
    assert!(got.is_ok());
}

#[test]
fn the_message_of_a_failure_names_the_place() {
    match receive(Reply::Body(b"{\"a\": }".to_vec())) {
        Err(ApiError::Deserialization(message)) => {
            assert_eq!(message, "expected value at line 1 column 7")
        }
        other => panic!("expected a deserialization error, got {:?}", other),
    }
}

#[test]
fn an_unreadable_body_keeps_its_message() {
    match receive_typed::<u8>(TypedReply::Unreadable("missing field".to_string())) {
        Err(ApiError::Deserialization(message)) => assert_eq!(message, "missing field"),
        other => panic!("expected a deserialization error, got {:?}", other),
    }
    match receive_typed(TypedReply::Read(7u8)) {
        Ok(value) => assert_eq!(value, 7),
        other => panic!("expected a value, got {:?}", other),
    }
}

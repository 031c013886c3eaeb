//! Request builders and request preparation for a language-model HTTP API.
//!
//! A request is built from its required fields, refined by chained setters and
//! turned into the JSON text of its body. The client joins that body with the
//! endpoint's address and the fixed headers into an [`http::PostRequest`], and
//! sorts what came back into a value or one of two errors.

pub mod anthropic_api;
pub mod body;
pub mod digits;
pub mod http;
pub mod json;
pub mod request_client;

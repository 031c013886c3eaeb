//! A client that posts a finished document to a full address.

use vstd::prelude::*;
use vstd::string::*;
use crate::http::{post_request, prepare, PostRequest};
use crate::json::{document_text, value_text};

verus! {

/// A key, and the requests that carry it. Unlike
/// [`AnthropicClient`](crate::anthropic_api::client::AnthropicClient) it has
/// no base address: each request names its whole address.
#[derive(Debug)]
pub struct RequestClient {
    /// The key that every request carries.
    api_key: String,
}

impl RequestClient {
    /// The key.
    pub closed spec fn api_key(&self) -> Seq<char> {
        self.api_key@
    }

    /// A client with `api_key`.
    pub fn new(api_key: String) -> (r: Self)
        ensures
            r.api_key() == api_key@,
    {
        RequestClient { api_key }
    }

    /// Prepares the POST of `body` to `url`: the address as it is given, the
    /// three fixed headers, and the document in compact form.
    pub fn post(&self, url: &str, body: &serde_json::Value) -> (r: PostRequest)
        ensures
            r@ == post_request(url@, self.api_key(), value_text(*body)),
    {
        prepare(String::from_str(url), self.api_key.as_str(), document_text(body))
    }
}

} // verus!

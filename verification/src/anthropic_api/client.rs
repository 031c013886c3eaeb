//! The client: the base address and the key, and the request that they make
//! with a path and a body.

use vstd::prelude::*;
use vstd::string::*;
use crate::anthropic_api::embeddings::EmbeddingsApi;
use crate::anthropic_api::messages::MessagesApi;
use crate::anthropic_api::text_completions::TextCompletionsApi;
use crate::http::{post_request, prepare, PostRequest, PostRequestView};

verus! {

/// The configuration of one API account: where the API lives, and the key
/// that every request carries. It does not change after construction.
#[derive(Debug)]
pub struct AnthropicClient<'a, 'b> {
    /// The base address of the API, without a trailing slash.
    base_url: &'a str,
    /// The key that every request carries.
    api_key: &'b str,
}

impl<'a, 'b> AnthropicClient<'a, 'b> {
    /// The base address.
    pub closed spec fn base_url(&self) -> Seq<char> {
        self.base_url@
    }

    /// The key.
    pub closed spec fn api_key(&self) -> Seq<char> {
        self.api_key@
    }

    /// The request that this client makes for `path` and `body`: the path is
    /// appended to the base address as it is, and the headers carry the key.
    pub open spec fn request(&self, path: Seq<char>, body: Seq<char>) -> PostRequestView {
        post_request(self.base_url() + path, self.api_key(), body)
    }

    /// A client for the API at `base_url`, with `api_key`.
    pub fn new(base_url: &'a str, api_key: &'b str) -> (r: Self)
        ensures
            r.base_url() == base_url@,
            r.api_key() == api_key@,
    {
        Self { base_url, api_key }
    }

    /// Prepares the POST of `body` to `url`, a path below the base address.
    pub fn post(&self, url: &str, body: String) -> (r: PostRequest)
        ensures
            r@ == self.request(url@, body@),
    {
        let mut address = String::from_str(self.base_url);
        address.append(url);
        prepare(address, self.api_key, body)
    }

    /// The embeddings endpoint of this client.
    pub fn embeddings(&self) -> (r: EmbeddingsApi<'_, 'a, 'b>)
        ensures
            r.client() == *self,
    {
        EmbeddingsApi::of(self)
    }

    /// The messages endpoint of this client.
    pub fn messages(&self) -> (r: MessagesApi<'_, 'a, 'b>)
        ensures
            r.client() == *self,
    {
        MessagesApi::of(self)
    }

    /// The text completions endpoint of this client.
    pub fn text_completions(&self) -> (r: TextCompletionsApi<'_, 'a, 'b>)
        ensures
            r.client() == *self,
    {
        TextCompletionsApi::of(self)
    }
}

} // verus!

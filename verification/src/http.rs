//! The request that goes out, what comes back for it, and what the caller is
//! told. Sending is not done here: a [`PostRequest`] says what to send, and a
//! [`Reply`] says what the transport brought back.

use vstd::prelude::*;
use vstd::string::*;
use crate::json::{failure_text, json_document, read_document};

verus! {

/// One header line, as a mathematical value.
pub struct HeaderView {
    pub name: Seq<char>,
    pub value: Seq<char>,
}

/// One header line.
#[derive(Debug)]
pub struct Header {
    pub name: String,
    pub value: String,
}

impl View for Header {
    type V = HeaderView;

    open spec fn view(&self) -> HeaderView {
        HeaderView { name: self.name@, value: self.value@ }
    }
}

/// A POST request, as a mathematical value.
pub struct PostRequestView {
    pub url: Seq<char>,
    pub headers: Seq<HeaderView>,
    pub body: Seq<char>,
}

/// A POST request that is ready to be sent: where to, with which headers, and
/// the JSON text of its body.
#[derive(Debug)]
pub struct PostRequest {
    pub url: String,
    pub headers: Vec<Header>,
    pub body: String,
}

impl View for PostRequest {
    type V = PostRequestView;

    open spec fn view(&self) -> PostRequestView {
        PostRequestView {
            url: self.url@,
            headers: Seq::new(self.headers@.len(), |i: int| self.headers@[i]@),
            body: self.body@,
        }
    }
}

/// The three headers that every request carries: the content type, the
/// caller's key, and the version of the API that this library speaks.
pub open spec fn fixed_headers(api_key: Seq<char>) -> Seq<HeaderView> {
    seq![
        (HeaderView { name: "content-type"@, value: "application/json"@ }),
        (HeaderView { name: "x-api-key"@, value: api_key }),
        (HeaderView { name: "anthropic-version"@, value: "2023-06-01"@ }),
    ]
}

/// The POST request to `url` with the fixed headers for `api_key` and `body`.
pub open spec fn post_request(url: Seq<char>, api_key: Seq<char>, body: Seq<char>)
    -> PostRequestView {
    PostRequestView { url, headers: fixed_headers(api_key), body }
}

/// Builds the request: the address as given, the three fixed headers, the body.
pub fn prepare(url: String, api_key: &str, body: String) -> (r: PostRequest)
    ensures
        r@ == post_request(url@, api_key@, body@),
{
    let headers = vec![
        Header {
            name: String::from_str("content-type"),
            value: String::from_str("application/json"),
        },
        Header { name: String::from_str("x-api-key"), value: String::from_str(api_key) },
        Header {
            name: String::from_str("anthropic-version"),
            value: String::from_str("2023-06-01"),
        },
    ];
    let r = PostRequest { url, headers, body };
    assert(r@.headers =~= fixed_headers(api_key@));
    r
}

/// Why a call gave no value.
#[derive(Debug)]
pub enum ApiError {
    /// The request did not get through, or no reply came back: the transport's
    /// own message.
    Transport(String),
    /// A reply came back, and its body is not what was expected.
    Deserialization(String),
}

/// What the transport brought back for one request.
#[derive(Debug)]
pub enum Reply {
    /// It failed, with this message.
    Failed(String),
    /// It delivered this body. The status line is not looked at.
    Body(Vec<u8>),
}

/// What the transport brought back, where the caller reads the body into a
/// type of its own.
#[derive(Debug)]
pub enum TypedReply<T> {
    /// The transport failed, with this message.
    Failed(String),
    /// A body came, and could not be read as a `T`.
    Unreadable(String),
    /// A body came, and this was read from it.
    Read(T),
}

/// Sorts a reply: a transport failure stays one, a body that is one JSON
/// document gives that document, any other body is a deserialization error.
pub fn receive(reply: Reply) -> (r: Result<serde_json::Value, ApiError>)
    ensures
        match reply {
            Reply::Failed(message) => r == Err::<serde_json::Value, ApiError>(
                ApiError::Transport(message),
            ),
            Reply::Body(body) => match json_document(body@) {
                Some(document) => r == Ok::<serde_json::Value, ApiError>(document),
                None => r is Err && r->Err_0 is Deserialization,
            },
        },
{
    match reply {
        Reply::Failed(message) => Err(ApiError::Transport(message)),
        Reply::Body(body) => match read_document(body.as_slice()) {
            Ok(document) => Ok(document),
            Err(error) => Err(ApiError::Deserialization(failure_text(&error))),
        },
    }
}

/// Sorts a reply whose body the caller has read: what was read is the value,
/// and each failure keeps its kind and its message.
pub fn receive_typed<T>(reply: TypedReply<T>) -> (r: Result<T, ApiError>)
    ensures
        match reply {
            TypedReply::Failed(message) => r == Err::<T, ApiError>(ApiError::Transport(message)),
            TypedReply::Unreadable(message) => r == Err::<T, ApiError>(
                ApiError::Deserialization(message),
            ),
            TypedReply::Read(value) => r == Ok::<T, ApiError>(value),
        },
{
    match reply {
        TypedReply::Failed(message) => Err(ApiError::Transport(message)),
        TypedReply::Unreadable(message) => Err(ApiError::Deserialization(message)),
        TypedReply::Read(value) => Ok(value),
    }
}

} // verus!

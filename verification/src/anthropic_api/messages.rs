//! Requests that continue a conversation, and the endpoint that takes them.

use vstd::prelude::*;
use crate::anthropic_api::client::AnthropicClient;
use crate::body::{
    found, has_key, object_text, optional, present, texts, under, under_concat, under_optional,
    under_single, Entry, Item, ObjectWriter,
};
use crate::http::PostRequest;

verus! {

/// The messages endpoint of a client.
pub struct MessagesApi<'a, 'b, 'c>(pub(crate) &'a AnthropicClient<'b, 'c>);

/// A request for the next message of a conversation, as a mathematical value.
pub struct MessageRequestView {
    pub model: Seq<char>,
    pub messages: Seq<serde_json::Value>,
    pub max_tokens: Option<u64>,
    pub temperature: Option<serde_json::Number>,
    pub stop_sequences: Option<Seq<Seq<char>>>,
    pub stream: Option<bool>,
}

impl MessageRequestView {
    /// The request with the token limit set.
    pub open spec fn with_max_tokens(self, max_tokens: u64) -> Self {
        MessageRequestView { max_tokens: Some(max_tokens), ..self }
    }

    /// The request with the temperature set.
    pub open spec fn with_temperature(self, temperature: serde_json::Number) -> Self {
        MessageRequestView { temperature: Some(temperature), ..self }
    }

    /// The request with the stop sequences set.
    pub open spec fn with_stop_sequences(self, stop_sequences: Seq<Seq<char>>) -> Self {
        MessageRequestView { stop_sequences: Some(stop_sequences), ..self }
    }

    /// The request with the stream flag set.
    pub open spec fn with_stream(self, stream: bool) -> Self {
        MessageRequestView { stream: Some(stream), ..self }
    }

    /// The item for the token limit, if it is set.
    pub open spec fn max_tokens_item(self) -> Option<Item> {
        match self.max_tokens {
            Some(value) => Some(Item::Unsigned(value as nat)),
            None => None,
        }
    }

    /// The item for the temperature, if it is set.
    pub open spec fn temperature_item(self) -> Option<Item> {
        match self.temperature {
            Some(value) => Some(Item::Decimal(value)),
            None => None,
        }
    }

    /// The item for the stop sequences, if it is set.
    pub open spec fn stop_sequences_item(self) -> Option<Item> {
        match self.stop_sequences {
            Some(value) => Some(Item::Texts(value)),
            None => None,
        }
    }

    /// The item for the stream flag, if it is set.
    pub open spec fn stream_item(self) -> Option<Item> {
        match self.stream {
            Some(value) => Some(Item::Flag(value)),
            None => None,
        }
    }

    /// The entries of the body.
    pub open spec fn entries(self) -> Seq<Entry> {
        seq![(Entry { key: "model"@, item: Item::Text(self.model) })]
            + seq![(Entry { key: "messages"@, item: Item::Documents(self.messages) })]
            + optional("max_tokens"@, self.max_tokens_item())
            + optional("temperature"@, self.temperature_item())
            + optional("stop_sequences"@, self.stop_sequences_item())
            + optional("stream"@, self.stream_item())
    }

    /// The JSON text of the body.
    pub open spec fn body(self) -> Seq<char> {
        object_text(self.entries())
    }
}

/// A request for the next message of a conversation.
#[derive(Debug)]
pub struct MessageRequest {
    /// The model that answers.
    model: String,
    /// The conversation so far, oldest message first.
    messages: Vec<serde_json::Value>,
    /// The token limit.
    max_tokens: Option<u64>,
    /// The temperature.
    temperature: Option<serde_json::Number>,
    /// The stop sequences.
    stop_sequences: Option<Vec<String>>,
    /// The stream flag.
    stream: Option<bool>,
}

impl View for MessageRequest {
    type V = MessageRequestView;

    closed spec fn view(&self) -> MessageRequestView {
        MessageRequestView {
            model: self.model@,
            messages: self.messages@,
            max_tokens: self.max_tokens,
            temperature: self.temperature,
            stop_sequences: match self.stop_sequences {
                Some(value) => Some(texts(value@)),
                None => None,
            },
            stream: self.stream,
        }
    }
}

impl MessageRequest {
    /// A request to continue `messages` with `model`, with no optional field set.
    pub fn new(model: String, messages: Vec<serde_json::Value>) -> (r: Self)
        ensures
            r@ == (MessageRequestView {
                model: model@,
                messages: messages@,
                max_tokens: None,
                temperature: None,
                stop_sequences: None,
                stream: None,
            }),
    {
        Self {
            model,
            messages,
            max_tokens: None,
            temperature: None,
            stop_sequences: None,
            stream: None,
        }
    }

    /// Sets how many tokens the answer may have at most.
    pub fn max_tokens(self, max_tokens: u64) -> (r: Self)
        ensures
            r@ == self@.with_max_tokens(max_tokens),
    {
        let mut r = self;
        r.max_tokens = Some(max_tokens);
        r
    }

    /// Sets the sampling temperature. No range is enforced.
    pub fn temperature(self, temperature: serde_json::Number) -> (r: Self)
        ensures
            r@ == self@.with_temperature(temperature),
    {
        let mut r = self;
        r.temperature = Some(temperature);
        r
    }

    /// Sets the texts at which the answer stops.
    pub fn stop_sequences(self, stop_sequences: Vec<String>) -> (r: Self)
        ensures
            r@ == self@.with_stop_sequences(texts(stop_sequences@)),
    {
        let mut r = self;
        r.stop_sequences = Some(stop_sequences);
        r
    }

    /// Sets whether the answer is sent back in pieces.
    pub fn stream(self, stream: bool) -> (r: Self)
        ensures
            r@ == self@.with_stream(stream),
    {
        let mut r = self;
        r.stream = Some(stream);
        r
    }

    /// The JSON text of the body: the required fields, then each optional
    /// field that is set. A field that is not set leaves no trace in it.
    pub fn to_json(&self) -> (r: String)
        ensures
            r@ == self@.body(),
    {
        let mut writer = ObjectWriter::new();
        writer.text("model", self.model.as_str());
        writer.documents("messages", &self.messages);
        if let Some(max_tokens) = &self.max_tokens {
            writer.unsigned("max_tokens", *max_tokens);
        }
        if let Some(temperature) = &self.temperature {
            writer.decimal("temperature", temperature);
        }
        if let Some(stop_sequences) = &self.stop_sequences {
            writer.texts("stop_sequences", stop_sequences);
        }
        if let Some(stream) = &self.stream {
            writer.flag("stream", *stream);
        }
        assert(writer.entries() =~= self@.entries());
        writer.finish()
    }
}

impl Default for MessageRequest {
    /// The request with no messages, an empty model name and no optional field.
    fn default() -> (r: Self)
        ensures
            r@ == (MessageRequestView {
                model: Seq::empty(),
                messages: Seq::empty(),
                max_tokens: None,
                temperature: None,
                stop_sequences: None,
                stream: None,
            }),
    {
        let r = Self {
            model: String::new(),
            messages: Vec::new(),
            max_tokens: None,
            temperature: None,
            stop_sequences: None,
            stream: None,
        };
        assert(r@.messages =~= Seq::<serde_json::Value>::empty());
        r
    }
}

/// What stands under any key of the body, field by field.
proof fn entries_under(v: MessageRequestView, key: Seq<char>)
    ensures
        under(v.entries(), key) == found("model"@, Some(Item::Text(v.model)), key)
            + found("messages"@, Some(Item::Documents(v.messages)), key)
            + found("max_tokens"@, v.max_tokens_item(), key)
            + found("temperature"@, v.temperature_item(), key)
            + found("stop_sequences"@, v.stop_sequences_item(), key)
            + found("stream"@, v.stream_item(), key),
{
    let model = seq![(Entry { key: "model"@, item: Item::Text(v.model) })];
    let messages = seq![(Entry { key: "messages"@, item: Item::Documents(v.messages) })];
    let max_tokens = optional("max_tokens"@, v.max_tokens_item());
    let temperature = optional("temperature"@, v.temperature_item());
    let stop_sequences = optional("stop_sequences"@, v.stop_sequences_item());
    let stream = optional("stream"@, v.stream_item());
    under_concat(model, messages, key);
    under_concat(model + messages, max_tokens, key);
    under_concat(model + messages + max_tokens, temperature, key);
    under_concat(model + messages + max_tokens + temperature, stop_sequences, key);
    under_concat(model + messages + max_tokens + temperature + stop_sequences, stream, key);
    under_single(model[0], key);
    under_single(messages[0], key);
    under_optional("max_tokens"@, v.max_tokens_item(), key);
    under_optional("temperature"@, v.temperature_item(), key);
    under_optional("stop_sequences"@, v.stop_sequences_item(), key);
    under_optional("stream"@, v.stream_item(), key);
}

/// The six keys of the body differ from each other.
proof fn keys_differ()
    ensures
        "model"@ != "messages"@,
        "model"@ != "max_tokens"@,
        "model"@ != "temperature"@,
        "model"@ != "stop_sequences"@,
        "model"@ != "stream"@,
        "messages"@ != "max_tokens"@,
        "messages"@ != "temperature"@,
        "messages"@ != "stop_sequences"@,
        "messages"@ != "stream"@,
        "max_tokens"@ != "temperature"@,
        "max_tokens"@ != "stop_sequences"@,
        "max_tokens"@ != "stream"@,
        "temperature"@ != "stop_sequences"@,
        "temperature"@ != "stream"@,
        "stop_sequences"@ != "stream"@,
{
    reveal_strlit("model");
    reveal_strlit("messages");
    reveal_strlit("max_tokens");
    reveal_strlit("temperature");
    reveal_strlit("stop_sequences");
    reveal_strlit("stream");
    assert("model"@.len() != "messages"@.len());
    assert("model"@.len() != "max_tokens"@.len());
    assert("model"@.len() != "temperature"@.len());
    assert("model"@.len() != "stop_sequences"@.len());
    assert("model"@.len() != "stream"@.len());
    assert("messages"@.len() != "max_tokens"@.len());
    assert("messages"@.len() != "temperature"@.len());
    assert("messages"@.len() != "stop_sequences"@.len());
    assert("messages"@.len() != "stream"@.len());
    assert("max_tokens"@.len() != "temperature"@.len());
    assert("max_tokens"@.len() != "stop_sequences"@.len());
    assert("max_tokens"@.len() != "stream"@.len());
    assert("temperature"@.len() != "stop_sequences"@.len());
    assert("temperature"@.len() != "stream"@.len());
    assert("stop_sequences"@.len() != "stream"@.len());
}

/// The body holds the two required fields, each once and with the value that
/// the request was made with.
pub proof fn required_fields_are_present(v: MessageRequestView)
    ensures
        under(v.entries(), "model"@) == seq![Item::Text(v.model)],
        under(v.entries(), "messages"@) == seq![Item::Documents(v.messages)],
{
    keys_differ();
    entries_under(v, "model"@);
    entries_under(v, "messages"@);
    assert(under(v.entries(), "model"@) =~= seq![Item::Text(v.model)]);
    assert(under(v.entries(), "messages"@) =~= seq![Item::Documents(v.messages)]);
}

/// An optional field that is set stands in the body under its own name, once
/// and with its value; one that is not set leaves its key out.
pub proof fn optional_fields_follow_the_setters(v: MessageRequestView)
    ensures
        under(v.entries(), "max_tokens"@) == present(v.max_tokens_item()),
        under(v.entries(), "temperature"@) == present(v.temperature_item()),
        under(v.entries(), "stop_sequences"@) == present(v.stop_sequences_item()),
        under(v.entries(), "stream"@) == present(v.stream_item()),
        has_key(v.entries(), "max_tokens"@) <==> v.max_tokens is Some,
        has_key(v.entries(), "temperature"@) <==> v.temperature is Some,
        has_key(v.entries(), "stop_sequences"@) <==> v.stop_sequences is Some,
        has_key(v.entries(), "stream"@) <==> v.stream is Some,
{
    keys_differ();
    entries_under(v, "max_tokens"@);
    entries_under(v, "temperature"@);
    entries_under(v, "stop_sequences"@);
    entries_under(v, "stream"@);
    assert(under(v.entries(), "max_tokens"@) =~= present(v.max_tokens_item()));
    assert(under(v.entries(), "temperature"@) =~= present(v.temperature_item()));
    assert(under(v.entries(), "stop_sequences"@) =~= present(v.stop_sequences_item()));
    assert(under(v.entries(), "stream"@) =~= present(v.stream_item()));
}

/// The body has no key but the six of this request.
pub proof fn no_other_key(v: MessageRequestView, key: Seq<char>)
    requires
        key != "model"@,
        key != "messages"@,
        key != "max_tokens"@,
        key != "temperature"@,
        key != "stop_sequences"@,
        key != "stream"@,
    ensures
        !has_key(v.entries(), key),
{
    entries_under(v, key);
    assert(under(v.entries(), key) =~= Seq::<Item>::empty());
}

/// Setting an optional field puts its value under its key, and changes what
/// stands under no other key.
pub proof fn a_setter_writes_its_own_key(
    v: MessageRequestView,
    max_tokens: u64,
    temperature: serde_json::Number,
    stop_sequences: Seq<Seq<char>>,
    stream: bool,
    key: Seq<char>,
)
    ensures
        under(v.with_max_tokens(max_tokens).entries(), "max_tokens"@) == seq![Item::Unsigned(max_tokens as nat)],
        under(v.with_temperature(temperature).entries(), "temperature"@) == seq![Item::Decimal(temperature)],
        under(v.with_stop_sequences(stop_sequences).entries(), "stop_sequences"@) == seq![Item::Texts(stop_sequences)],
        under(v.with_stream(stream).entries(), "stream"@) == seq![Item::Flag(stream)],
        key != "max_tokens"@ ==> under(v.with_max_tokens(max_tokens).entries(), key) == under(v.entries(), key),
        key != "temperature"@ ==> under(v.with_temperature(temperature).entries(), key) == under(v.entries(), key),
        key != "stop_sequences"@ ==> under(v.with_stop_sequences(stop_sequences).entries(), key) == under(v.entries(), key),
        key != "stream"@ ==> under(v.with_stream(stream).entries(), key) == under(v.entries(), key),
{
    optional_fields_follow_the_setters(v.with_max_tokens(max_tokens));
    optional_fields_follow_the_setters(v.with_temperature(temperature));
    optional_fields_follow_the_setters(v.with_stop_sequences(stop_sequences));
    optional_fields_follow_the_setters(v.with_stream(stream));
    entries_under(v, key);
    entries_under(v.with_max_tokens(max_tokens), key);
    entries_under(v.with_temperature(temperature), key);
    entries_under(v.with_stop_sequences(stop_sequences), key);
    entries_under(v.with_stream(stream), key);
}

/// The order in which two setters are called does not matter.
pub proof fn setters_commute(
    v: MessageRequestView,
    max_tokens: u64,
    temperature: serde_json::Number,
    stop_sequences: Seq<Seq<char>>,
    stream: bool,
)
    ensures
        v.with_max_tokens(max_tokens).with_temperature(temperature) == v.with_temperature(temperature).with_max_tokens(max_tokens),
        v.with_max_tokens(max_tokens).with_stop_sequences(stop_sequences) == v.with_stop_sequences(stop_sequences).with_max_tokens(max_tokens),
        v.with_max_tokens(max_tokens).with_stream(stream) == v.with_stream(stream).with_max_tokens(max_tokens),
        v.with_temperature(temperature).with_stop_sequences(stop_sequences) == v.with_stop_sequences(stop_sequences).with_temperature(temperature),
        v.with_temperature(temperature).with_stream(stream) == v.with_stream(stream).with_temperature(temperature),
        v.with_stop_sequences(stop_sequences).with_stream(stream) == v.with_stream(stream).with_stop_sequences(stop_sequences),
{
}

/// A setter that is called again replaces what the first call set.
pub proof fn the_last_call_of_a_setter_counts(
    v: MessageRequestView,
    max_tokens: u64,
    temperature: serde_json::Number,
    stop_sequences: Seq<Seq<char>>,
    stream: bool,
    max_tokens_again: u64,
    temperature_again: serde_json::Number,
    stop_sequences_again: Seq<Seq<char>>,
    stream_again: bool,
)
    ensures
        v.with_max_tokens(max_tokens).with_max_tokens(max_tokens_again) == v.with_max_tokens(max_tokens_again),
        v.with_temperature(temperature).with_temperature(temperature_again) == v.with_temperature(temperature_again),
        v.with_stop_sequences(stop_sequences).with_stop_sequences(stop_sequences_again) == v.with_stop_sequences(stop_sequences_again),
        v.with_stream(stream).with_stream(stream_again) == v.with_stream(stream_again),
{
}

/// Two requests made from the same values have the same body, character for
/// character.
pub proof fn equal_requests_have_equal_bodies(first: &MessageRequest, second: &MessageRequest)
    requires
        first@ == second@,
    ensures
        first@.body() == second@.body(),
{
}

impl<'a, 'b, 'c> MessagesApi<'a, 'b, 'c> {
    /// The client that this endpoint belongs to.
    pub closed spec fn client(&self) -> AnthropicClient<'b, 'c> {
        *self.0
    }

    /// The messages endpoint of `client`.
    pub(crate) fn of(client: &'a AnthropicClient<'b, 'c>) -> (r: Self)
        ensures
            r.client() == *client,
    {
        MessagesApi(client)
    }

    /// Prepares the POST of `request` to `/messages`.
    pub fn create(&self, request: MessageRequest) -> (r: PostRequest)
        ensures
            r@ == self.client().request("/messages"@, request@.body()),
    {
        self.0.post("/messages", request.to_json())
    }
}

} // verus!

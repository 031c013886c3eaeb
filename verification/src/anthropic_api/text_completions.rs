//! Requests that complete a prompt, and the endpoint that takes them.

use vstd::prelude::*;
use crate::anthropic_api::client::AnthropicClient;
use crate::body::{
    found, has_key, object_text, optional, present, texts, under, under_concat, under_optional,
    under_single, Entry, Item, ObjectWriter,
};
use crate::http::PostRequest;

verus! {

/// The text completions endpoint of a client.
pub struct TextCompletionsApi<'a, 'b, 'c>(pub(crate) &'a AnthropicClient<'b, 'c>);

/// A request for the completion of a prompt, as a mathematical value.
pub struct TextCompletionRequestView {
    pub model: Seq<char>,
    pub prompt: Seq<char>,
    pub max_tokens_to_sample: Option<u64>,
    pub stop_sequences: Option<Seq<Seq<char>>>,
    pub temperature: Option<serde_json::Number>,
    pub top_p: Option<serde_json::Number>,
    pub top_k: Option<u64>,
}

impl TextCompletionRequestView {
    /// The request with the token limit set.
    pub open spec fn with_max_tokens_to_sample(self, max_tokens_to_sample: u64) -> Self {
        TextCompletionRequestView { max_tokens_to_sample: Some(max_tokens_to_sample), ..self }
    }

    /// The request with the stop sequences set.
    pub open spec fn with_stop_sequences(self, stop_sequences: Seq<Seq<char>>) -> Self {
        TextCompletionRequestView { stop_sequences: Some(stop_sequences), ..self }
    }

    /// The request with the temperature set.
    pub open spec fn with_temperature(self, temperature: serde_json::Number) -> Self {
        TextCompletionRequestView { temperature: Some(temperature), ..self }
    }

    /// The request with the nucleus sampling bound set.
    pub open spec fn with_top_p(self, top_p: serde_json::Number) -> Self {
        TextCompletionRequestView { top_p: Some(top_p), ..self }
    }

    /// The request with the number of tokens sampled from set.
    pub open spec fn with_top_k(self, top_k: u64) -> Self {
        TextCompletionRequestView { top_k: Some(top_k), ..self }
    }

    /// The item for the token limit, if it is set.
    pub open spec fn max_tokens_to_sample_item(self) -> Option<Item> {
        match self.max_tokens_to_sample {
            Some(value) => Some(Item::Unsigned(value as nat)),
            None => None,
        }
    }

    /// The item for the stop sequences, if it is set.
    pub open spec fn stop_sequences_item(self) -> Option<Item> {
        match self.stop_sequences {
            Some(value) => Some(Item::Texts(value)),
            None => None,
        }
    }

    /// The item for the temperature, if it is set.
    pub open spec fn temperature_item(self) -> Option<Item> {
        match self.temperature {
            Some(value) => Some(Item::Decimal(value)),
            None => None,
        }
    }

    /// The item for the nucleus sampling bound, if it is set.
    pub open spec fn top_p_item(self) -> Option<Item> {
        match self.top_p {
            Some(value) => Some(Item::Decimal(value)),
            None => None,
        }
    }

    /// The item for the number of tokens sampled from, if it is set.
    pub open spec fn top_k_item(self) -> Option<Item> {
        match self.top_k {
            Some(value) => Some(Item::Unsigned(value as nat)),
            None => None,
        }
    }

    /// The entries of the body.
    pub open spec fn entries(self) -> Seq<Entry> {
        seq![(Entry { key: "model"@, item: Item::Text(self.model) })]
            + seq![(Entry { key: "prompt"@, item: Item::Text(self.prompt) })]
            + optional("max_tokens_to_sample"@, self.max_tokens_to_sample_item())
            + optional("stop_sequences"@, self.stop_sequences_item())
            + optional("temperature"@, self.temperature_item())
            + optional("top_p"@, self.top_p_item())
            + optional("top_k"@, self.top_k_item())
    }

    /// The JSON text of the body.
    pub open spec fn body(self) -> Seq<char> {
        object_text(self.entries())
    }
}

/// A request for the completion of a prompt.
#[derive(Debug)]
pub struct TextCompletionRequest {
    /// The model that completes.
    model: String,
    /// The text to complete.
    prompt: String,
    /// The token limit.
    max_tokens_to_sample: Option<u64>,
    /// The stop sequences.
    stop_sequences: Option<Vec<String>>,
    /// The temperature.
    temperature: Option<serde_json::Number>,
    /// The nucleus sampling bound.
    top_p: Option<serde_json::Number>,
    /// The number of tokens sampled from.
    top_k: Option<u64>,
}

impl View for TextCompletionRequest {
    type V = TextCompletionRequestView;

    closed spec fn view(&self) -> TextCompletionRequestView {
        TextCompletionRequestView {
            model: self.model@,
            prompt: self.prompt@,
            max_tokens_to_sample: self.max_tokens_to_sample,
            stop_sequences: match self.stop_sequences {
                Some(value) => Some(texts(value@)),
                None => None,
            },
            temperature: self.temperature,
            top_p: self.top_p,
            top_k: self.top_k,
        }
    }
}

impl TextCompletionRequest {
    /// A request to complete `prompt` with `model`, with no optional field set.
    pub fn new(model: String, prompt: String) -> (r: Self)
        ensures
            r@ == (TextCompletionRequestView {
                model: model@,
                prompt: prompt@,
                max_tokens_to_sample: None,
                stop_sequences: None,
                temperature: None,
                top_p: None,
                top_k: None,
            }),
    {
        Self {
            model,
            prompt,
            max_tokens_to_sample: None,
            stop_sequences: None,
            temperature: None,
            top_p: None,
            top_k: None,
        }
    }

    /// Sets how many tokens the completion may have at most.
    pub fn max_tokens_to_sample(self, max_tokens_to_sample: u64) -> (r: Self)
        ensures
            r@ == self@.with_max_tokens_to_sample(max_tokens_to_sample),
    {
        let mut r = self;
        r.max_tokens_to_sample = Some(max_tokens_to_sample);
        r
    }

    /// Sets the texts at which the completion stops.
    pub fn stop_sequences(self, stop_sequences: Vec<String>) -> (r: Self)
        ensures
            r@ == self@.with_stop_sequences(texts(stop_sequences@)),
    {
        let mut r = self;
        r.stop_sequences = Some(stop_sequences);
        r
    }

    /// Sets the sampling temperature. No range is enforced.
    pub fn temperature(self, temperature: serde_json::Number) -> (r: Self)
        ensures
            r@ == self@.with_temperature(temperature),
    {
        let mut r = self;
        r.temperature = Some(temperature);
        r
    }

    /// Sets the nucleus sampling bound. No range is enforced.
    pub fn top_p(self, top_p: serde_json::Number) -> (r: Self)
        ensures
            r@ == self@.with_top_p(top_p),
    {
        let mut r = self;
        r.top_p = Some(top_p);
        r
    }

    /// Sets how many of the likeliest tokens are sampled from.
    pub fn top_k(self, top_k: u64) -> (r: Self)
        ensures
            r@ == self@.with_top_k(top_k),
    {
        let mut r = self;
        r.top_k = Some(top_k);
        r
    }

    /// The JSON text of the body: the required fields, then each optional
    /// field that is set. A field that is not set leaves no trace in it.
    pub fn to_json(&self) -> (r: String)
        ensures
            r@ == self@.body(),
    {
        let mut writer = ObjectWriter::new();
        writer.text("model", self.model.as_str());
        writer.text("prompt", self.prompt.as_str());
        if let Some(max_tokens_to_sample) = &self.max_tokens_to_sample {
            writer.unsigned("max_tokens_to_sample", *max_tokens_to_sample);
        }
        if let Some(stop_sequences) = &self.stop_sequences {
            writer.texts("stop_sequences", stop_sequences);
        }
        if let Some(temperature) = &self.temperature {
            writer.decimal("temperature", temperature);
        }
        if let Some(top_p) = &self.top_p {
            writer.decimal("top_p", top_p);
        }
        if let Some(top_k) = &self.top_k {
            writer.unsigned("top_k", *top_k);
        }
        assert(writer.entries() =~= self@.entries());
        writer.finish()
    }
}

impl Default for TextCompletionRequest {
    /// The request with an empty model name, an empty prompt and no optional field.
    fn default() -> (r: Self)
        ensures
            r@ == (TextCompletionRequestView {
                model: Seq::empty(),
                prompt: Seq::empty(),
                max_tokens_to_sample: None,
                stop_sequences: None,
                temperature: None,
                top_p: None,
                top_k: None,
            }),
    {
        let r = Self {
            model: String::new(),
            prompt: String::new(),
            max_tokens_to_sample: None,
            stop_sequences: None,
            temperature: None,
            top_p: None,
            top_k: None,
        };
        r
    }
}

/// What stands under any key of the body, field by field.
proof fn entries_under(v: TextCompletionRequestView, key: Seq<char>)
    ensures
        under(v.entries(), key) == found("model"@, Some(Item::Text(v.model)), key)
            + found("prompt"@, Some(Item::Text(v.prompt)), key)
            + found("max_tokens_to_sample"@, v.max_tokens_to_sample_item(), key)
            + found("stop_sequences"@, v.stop_sequences_item(), key)
            + found("temperature"@, v.temperature_item(), key)
            + found("top_p"@, v.top_p_item(), key)
            + found("top_k"@, v.top_k_item(), key),
{
    let model = seq![(Entry { key: "model"@, item: Item::Text(v.model) })];
    let prompt = seq![(Entry { key: "prompt"@, item: Item::Text(v.prompt) })];
    let max_tokens_to_sample = optional("max_tokens_to_sample"@, v.max_tokens_to_sample_item());
    let stop_sequences = optional("stop_sequences"@, v.stop_sequences_item());
    let temperature = optional("temperature"@, v.temperature_item());
    let top_p = optional("top_p"@, v.top_p_item());
    let top_k = optional("top_k"@, v.top_k_item());
    under_concat(model, prompt, key);
    under_concat(model + prompt, max_tokens_to_sample, key);
    under_concat(model + prompt + max_tokens_to_sample, stop_sequences, key);
    under_concat(model + prompt + max_tokens_to_sample + stop_sequences, temperature, key);
    under_concat(model + prompt + max_tokens_to_sample + stop_sequences + temperature, top_p, key);
    under_concat(model + prompt + max_tokens_to_sample + stop_sequences + temperature + top_p, top_k, key);
    under_single(model[0], key);
    under_single(prompt[0], key);
    under_optional("max_tokens_to_sample"@, v.max_tokens_to_sample_item(), key);
    under_optional("stop_sequences"@, v.stop_sequences_item(), key);
    under_optional("temperature"@, v.temperature_item(), key);
    under_optional("top_p"@, v.top_p_item(), key);
    under_optional("top_k"@, v.top_k_item(), key);
}

/// The seven keys of the body differ from each other.
proof fn keys_differ()
    ensures
        "model"@ != "prompt"@,
        "model"@ != "max_tokens_to_sample"@,
        "model"@ != "stop_sequences"@,
        "model"@ != "temperature"@,
        "model"@ != "top_p"@,
        "model"@ != "top_k"@,
        "prompt"@ != "max_tokens_to_sample"@,
        "prompt"@ != "stop_sequences"@,
        "prompt"@ != "temperature"@,
        "prompt"@ != "top_p"@,
        "prompt"@ != "top_k"@,
        "max_tokens_to_sample"@ != "stop_sequences"@,
        "max_tokens_to_sample"@ != "temperature"@,
        "max_tokens_to_sample"@ != "top_p"@,
        "max_tokens_to_sample"@ != "top_k"@,
        "stop_sequences"@ != "temperature"@,
        "stop_sequences"@ != "top_p"@,
        "stop_sequences"@ != "top_k"@,
        "temperature"@ != "top_p"@,
        "temperature"@ != "top_k"@,
        "top_p"@ != "top_k"@,
{
    reveal_strlit("model");
    reveal_strlit("prompt");
    reveal_strlit("max_tokens_to_sample");
    reveal_strlit("stop_sequences");
    reveal_strlit("temperature");
    reveal_strlit("top_p");
    reveal_strlit("top_k");
    assert("model"@.len() != "prompt"@.len());
    assert("model"@.len() != "max_tokens_to_sample"@.len());
    assert("model"@.len() != "stop_sequences"@.len());
    assert("model"@.len() != "temperature"@.len());
    assert("model"@[0] != "top_p"@[0]);
    assert("model"@[0] != "top_k"@[0]);
    assert("prompt"@.len() != "max_tokens_to_sample"@.len());
    assert("prompt"@.len() != "stop_sequences"@.len());
    assert("prompt"@.len() != "temperature"@.len());
    assert("prompt"@.len() != "top_p"@.len());
    assert("prompt"@.len() != "top_k"@.len());
    assert("max_tokens_to_sample"@.len() != "stop_sequences"@.len());
    assert("max_tokens_to_sample"@.len() != "temperature"@.len());
    assert("max_tokens_to_sample"@.len() != "top_p"@.len());
    assert("max_tokens_to_sample"@.len() != "top_k"@.len());
    assert("stop_sequences"@.len() != "temperature"@.len());
    assert("stop_sequences"@.len() != "top_p"@.len());
    assert("stop_sequences"@.len() != "top_k"@.len());
    assert("temperature"@.len() != "top_p"@.len());
    assert("temperature"@.len() != "top_k"@.len());
    assert("top_p"@[4] != "top_k"@[4]);
}

/// The body holds the two required fields, each once and with the value that
/// the request was made with.
pub proof fn required_fields_are_present(v: TextCompletionRequestView)
    ensures
        under(v.entries(), "model"@) == seq![Item::Text(v.model)],
        under(v.entries(), "prompt"@) == seq![Item::Text(v.prompt)],
{
    keys_differ();
    entries_under(v, "model"@);
    entries_under(v, "prompt"@);
    assert(under(v.entries(), "model"@) =~= seq![Item::Text(v.model)]);
    assert(under(v.entries(), "prompt"@) =~= seq![Item::Text(v.prompt)]);
}

/// An optional field that is set stands in the body under its own name, once
/// and with its value; one that is not set leaves its key out.
pub proof fn optional_fields_follow_the_setters(v: TextCompletionRequestView)
    ensures
        under(v.entries(), "max_tokens_to_sample"@) == present(v.max_tokens_to_sample_item()),
        under(v.entries(), "stop_sequences"@) == present(v.stop_sequences_item()),
        under(v.entries(), "temperature"@) == present(v.temperature_item()),
        under(v.entries(), "top_p"@) == present(v.top_p_item()),
        under(v.entries(), "top_k"@) == present(v.top_k_item()),
        has_key(v.entries(), "max_tokens_to_sample"@) <==> v.max_tokens_to_sample is Some,
        has_key(v.entries(), "stop_sequences"@) <==> v.stop_sequences is Some,
        has_key(v.entries(), "temperature"@) <==> v.temperature is Some,
        has_key(v.entries(), "top_p"@) <==> v.top_p is Some,
        has_key(v.entries(), "top_k"@) <==> v.top_k is Some,
{
    keys_differ();
    entries_under(v, "max_tokens_to_sample"@);
    entries_under(v, "stop_sequences"@);
    entries_under(v, "temperature"@);
    entries_under(v, "top_p"@);
    entries_under(v, "top_k"@);
    assert(under(v.entries(), "max_tokens_to_sample"@) =~= present(v.max_tokens_to_sample_item()));
    assert(under(v.entries(), "stop_sequences"@) =~= present(v.stop_sequences_item()));
    assert(under(v.entries(), "temperature"@) =~= present(v.temperature_item()));
    assert(under(v.entries(), "top_p"@) =~= present(v.top_p_item()));
    assert(under(v.entries(), "top_k"@) =~= present(v.top_k_item()));
}

/// The body has no key but the seven of this request.
pub proof fn no_other_key(v: TextCompletionRequestView, key: Seq<char>)
    requires
        key != "model"@,
        key != "prompt"@,
        key != "max_tokens_to_sample"@,
        key != "stop_sequences"@,
        key != "temperature"@,
        key != "top_p"@,
        key != "top_k"@,
    ensures
        !has_key(v.entries(), key),
{
    entries_under(v, key);
    assert(under(v.entries(), key) =~= Seq::<Item>::empty());
}

/// Setting an optional field puts its value under its key, and changes what
/// stands under no other key.
pub proof fn a_setter_writes_its_own_key(
    v: TextCompletionRequestView,
    max_tokens_to_sample: u64,
    stop_sequences: Seq<Seq<char>>,
    temperature: serde_json::Number,
    top_p: serde_json::Number,
    top_k: u64,
    key: Seq<char>,
)
    ensures
        under(v.with_max_tokens_to_sample(max_tokens_to_sample).entries(), "max_tokens_to_sample"@) == seq![Item::Unsigned(max_tokens_to_sample as nat)],
        under(v.with_stop_sequences(stop_sequences).entries(), "stop_sequences"@) == seq![Item::Texts(stop_sequences)],
        under(v.with_temperature(temperature).entries(), "temperature"@) == seq![Item::Decimal(temperature)],
        under(v.with_top_p(top_p).entries(), "top_p"@) == seq![Item::Decimal(top_p)],
        under(v.with_top_k(top_k).entries(), "top_k"@) == seq![Item::Unsigned(top_k as nat)],
        key != "max_tokens_to_sample"@ ==> under(v.with_max_tokens_to_sample(max_tokens_to_sample).entries(), key) == under(v.entries(), key),
        key != "stop_sequences"@ ==> under(v.with_stop_sequences(stop_sequences).entries(), key) == under(v.entries(), key),
        key != "temperature"@ ==> under(v.with_temperature(temperature).entries(), key) == under(v.entries(), key),
        key != "top_p"@ ==> under(v.with_top_p(top_p).entries(), key) == under(v.entries(), key),
        key != "top_k"@ ==> under(v.with_top_k(top_k).entries(), key) == under(v.entries(), key),
{
    optional_fields_follow_the_setters(v.with_max_tokens_to_sample(max_tokens_to_sample));
    optional_fields_follow_the_setters(v.with_stop_sequences(stop_sequences));
    optional_fields_follow_the_setters(v.with_temperature(temperature));
    optional_fields_follow_the_setters(v.with_top_p(top_p));
    optional_fields_follow_the_setters(v.with_top_k(top_k));
    entries_under(v, key);
    entries_under(v.with_max_tokens_to_sample(max_tokens_to_sample), key);
    entries_under(v.with_stop_sequences(stop_sequences), key);
    entries_under(v.with_temperature(temperature), key);
    entries_under(v.with_top_p(top_p), key);
    entries_under(v.with_top_k(top_k), key);
}

/// The order in which two setters are called does not matter.
pub proof fn setters_commute(
    v: TextCompletionRequestView,
    max_tokens_to_sample: u64,
    stop_sequences: Seq<Seq<char>>,
    temperature: serde_json::Number,
    top_p: serde_json::Number,
    top_k: u64,
)
    ensures
        v.with_max_tokens_to_sample(max_tokens_to_sample).with_stop_sequences(stop_sequences) == v.with_stop_sequences(stop_sequences).with_max_tokens_to_sample(max_tokens_to_sample),
        v.with_max_tokens_to_sample(max_tokens_to_sample).with_temperature(temperature) == v.with_temperature(temperature).with_max_tokens_to_sample(max_tokens_to_sample),
        v.with_max_tokens_to_sample(max_tokens_to_sample).with_top_p(top_p) == v.with_top_p(top_p).with_max_tokens_to_sample(max_tokens_to_sample),
        v.with_max_tokens_to_sample(max_tokens_to_sample).with_top_k(top_k) == v.with_top_k(top_k).with_max_tokens_to_sample(max_tokens_to_sample),
        v.with_stop_sequences(stop_sequences).with_temperature(temperature) == v.with_temperature(temperature).with_stop_sequences(stop_sequences),
        v.with_stop_sequences(stop_sequences).with_top_p(top_p) == v.with_top_p(top_p).with_stop_sequences(stop_sequences),
        v.with_stop_sequences(stop_sequences).with_top_k(top_k) == v.with_top_k(top_k).with_stop_sequences(stop_sequences),
        v.with_temperature(temperature).with_top_p(top_p) == v.with_top_p(top_p).with_temperature(temperature),
        v.with_temperature(temperature).with_top_k(top_k) == v.with_top_k(top_k).with_temperature(temperature),
        v.with_top_p(top_p).with_top_k(top_k) == v.with_top_k(top_k).with_top_p(top_p),
{
}

/// A setter that is called again replaces what the first call set.
pub proof fn the_last_call_of_a_setter_counts(
    v: TextCompletionRequestView,
    max_tokens_to_sample: u64,
    stop_sequences: Seq<Seq<char>>,
    temperature: serde_json::Number,
    top_p: serde_json::Number,
    top_k: u64,
    max_tokens_to_sample_again: u64,
    stop_sequences_again: Seq<Seq<char>>,
    temperature_again: serde_json::Number,
    top_p_again: serde_json::Number,
    top_k_again: u64,
)
    ensures
        v.with_max_tokens_to_sample(max_tokens_to_sample).with_max_tokens_to_sample(max_tokens_to_sample_again) == v.with_max_tokens_to_sample(max_tokens_to_sample_again),
        v.with_stop_sequences(stop_sequences).with_stop_sequences(stop_sequences_again) == v.with_stop_sequences(stop_sequences_again),
        v.with_temperature(temperature).with_temperature(temperature_again) == v.with_temperature(temperature_again),
        v.with_top_p(top_p).with_top_p(top_p_again) == v.with_top_p(top_p_again),
        v.with_top_k(top_k).with_top_k(top_k_again) == v.with_top_k(top_k_again),
{
}

/// Two requests made from the same values have the same body, character for
/// character.
pub proof fn equal_requests_have_equal_bodies(first: &TextCompletionRequest, second: &TextCompletionRequest)
    requires
        first@ == second@,
    ensures
        first@.body() == second@.body(),
{
}

impl<'a, 'b, 'c> TextCompletionsApi<'a, 'b, 'c> {
    /// The client that this endpoint belongs to.
    pub closed spec fn client(&self) -> AnthropicClient<'b, 'c> {
        *self.0
    }

    /// The text completions endpoint of `client`.
    pub(crate) fn of(client: &'a AnthropicClient<'b, 'c>) -> (r: Self)
        ensures
            r.client() == *client,
    {
        TextCompletionsApi(client)
    }

    /// Prepares the POST of `request` to `/complete`.
    pub fn create(&self, request: TextCompletionRequest) -> (r: PostRequest)
        ensures
            r@ == self.client().request("/complete"@, request@.body()),
    {
        self.0.post("/complete", request.to_json())
    }
}

} // verus!

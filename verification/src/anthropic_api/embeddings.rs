//! Requests for embeddings, and the endpoint that takes them.

use vstd::prelude::*;
use crate::anthropic_api::client::AnthropicClient;
use crate::body::{
    found, has_key, object_text, optional, present, texts, under, under_concat, under_optional,
    under_single, Entry, Item, ObjectWriter,
};
use crate::http::PostRequest;

verus! {

/// The embeddings endpoint of a client.
pub struct EmbeddingsApi<'a, 'b, 'c>(pub(crate) &'a AnthropicClient<'b, 'c>);

/// A request for embeddings, as a mathematical value.
pub struct EmbeddingsRequestView {
    pub inputs: Seq<Seq<char>>,
    pub model: Seq<char>,
    pub input_type: Option<Seq<char>>,
    pub truncation: Option<bool>,
    pub encoding_format: Option<Seq<char>>,
}

impl EmbeddingsRequestView {
    /// The request with the input type set.
    pub open spec fn with_input_type(self, input_type: Seq<char>) -> Self {
        EmbeddingsRequestView { input_type: Some(input_type), ..self }
    }

    /// The request with the truncation flag set.
    pub open spec fn with_truncation(self, truncation: bool) -> Self {
        EmbeddingsRequestView { truncation: Some(truncation), ..self }
    }

    /// The request with the encoding format set.
    pub open spec fn with_encoding_format(self, encoding_format: Seq<char>) -> Self {
        EmbeddingsRequestView { encoding_format: Some(encoding_format), ..self }
    }

    /// The item for the input type, if it is set.
    pub open spec fn input_type_item(self) -> Option<Item> {
        match self.input_type {
            Some(value) => Some(Item::Text(value)),
            None => None,
        }
    }

    /// The item for the truncation flag, if it is set.
    pub open spec fn truncation_item(self) -> Option<Item> {
        match self.truncation {
            Some(value) => Some(Item::Flag(value)),
            None => None,
        }
    }

    /// The item for the encoding format, if it is set.
    pub open spec fn encoding_format_item(self) -> Option<Item> {
        match self.encoding_format {
            Some(value) => Some(Item::Text(value)),
            None => None,
        }
    }

    /// The entries of the body. The inputs go out under the key `input`.
    pub open spec fn entries(self) -> Seq<Entry> {
        seq![(Entry { key: "input"@, item: Item::Texts(self.inputs) })]
            + seq![(Entry { key: "model"@, item: Item::Text(self.model) })]
            + optional("input_type"@, self.input_type_item())
            + optional("truncation"@, self.truncation_item())
            + optional("encoding_format"@, self.encoding_format_item())
    }

    /// The JSON text of the body.
    pub open spec fn body(self) -> Seq<char> {
        object_text(self.entries())
    }
}

/// A request for embeddings.
#[derive(Debug)]
pub struct EmbeddingsRequest {
    /// The texts to embed.
    inputs: Vec<String>,
    /// The model that embeds them.
    model: String,
    /// The input type.
    input_type: Option<String>,
    /// The truncation flag.
    truncation: Option<bool>,
    /// The encoding format.
    encoding_format: Option<String>,
}

impl View for EmbeddingsRequest {
    type V = EmbeddingsRequestView;

    closed spec fn view(&self) -> EmbeddingsRequestView {
        EmbeddingsRequestView {
            inputs: texts(self.inputs@),
            model: self.model@,
            input_type: match self.input_type {
                Some(value) => Some(value@),
                None => None,
            },
            truncation: self.truncation,
            encoding_format: match self.encoding_format {
                Some(value) => Some(value@),
                None => None,
            },
        }
    }
}

impl EmbeddingsRequest {
    /// A request to embed `inputs` with `model`, with no optional field set.
    pub fn new(model: String, inputs: Vec<String>) -> (r: Self)
        ensures
            r@ == (EmbeddingsRequestView {
                inputs: texts(inputs@),
                model: model@,
                input_type: None,
                truncation: None,
                encoding_format: None,
            }),
    {
        Self {
            inputs,
            model,
            input_type: None,
            truncation: None,
            encoding_format: None,
        }
    }

    /// Sets what kind of text the inputs are.
    pub fn input_type(self, input_type: String) -> (r: Self)
        ensures
            r@ == self@.with_input_type(input_type@),
    {
        let mut r = self;
        r.input_type = Some(input_type);
        r
    }

    /// Sets whether inputs that are too long are cut.
    pub fn truncation(self, truncation: bool) -> (r: Self)
        ensures
            r@ == self@.with_truncation(truncation),
    {
        let mut r = self;
        r.truncation = Some(truncation);
        r
    }

    /// Sets how the embeddings are encoded.
    pub fn encoding_format(self, encoding_format: String) -> (r: Self)
        ensures
            r@ == self@.with_encoding_format(encoding_format@),
    {
        let mut r = self;
        r.encoding_format = Some(encoding_format);
        r
    }

    /// The JSON text of the body: the required fields, then each optional
    /// field that is set. A field that is not set leaves no trace in it.
    pub fn to_json(&self) -> (r: String)
        ensures
            r@ == self@.body(),
    {
        let mut writer = ObjectWriter::new();
        writer.texts("input", &self.inputs);
        writer.text("model", self.model.as_str());
        if let Some(input_type) = &self.input_type {
            writer.text("input_type", input_type.as_str());
        }
        if let Some(truncation) = &self.truncation {
            writer.flag("truncation", *truncation);
        }
        if let Some(encoding_format) = &self.encoding_format {
            writer.text("encoding_format", encoding_format.as_str());
        }
        assert(writer.entries() =~= self@.entries());
        writer.finish()
    }
}

impl Default for EmbeddingsRequest {
    /// The request with no inputs, an empty model name and no optional field.
    fn default() -> (r: Self)
        ensures
            r@ == (EmbeddingsRequestView {
                inputs: Seq::empty(),
                model: Seq::empty(),
                input_type: None,
                truncation: None,
                encoding_format: None,
            }),
    {
        let r = Self {
            inputs: Vec::new(),
            model: String::new(),
            input_type: None,
            truncation: None,
            encoding_format: None,
        };
        assert(r@.inputs =~= Seq::<Seq<char>>::empty());
        r
    }
}

/// What stands under any key of the body, field by field.
proof fn entries_under(v: EmbeddingsRequestView, key: Seq<char>)
    ensures
        under(v.entries(), key) == found("input"@, Some(Item::Texts(v.inputs)), key)
            + found("model"@, Some(Item::Text(v.model)), key)
            + found("input_type"@, v.input_type_item(), key)
            + found("truncation"@, v.truncation_item(), key)
            + found("encoding_format"@, v.encoding_format_item(), key),
{
    let inputs = seq![(Entry { key: "input"@, item: Item::Texts(v.inputs) })];
    let model = seq![(Entry { key: "model"@, item: Item::Text(v.model) })];
    let input_type = optional("input_type"@, v.input_type_item());
    let truncation = optional("truncation"@, v.truncation_item());
    let encoding_format = optional("encoding_format"@, v.encoding_format_item());
    under_concat(inputs, model, key);
    under_concat(inputs + model, input_type, key);
    under_concat(inputs + model + input_type, truncation, key);
    under_concat(inputs + model + input_type + truncation, encoding_format, key);
    under_single(inputs[0], key);
    under_single(model[0], key);
    under_optional("input_type"@, v.input_type_item(), key);
    under_optional("truncation"@, v.truncation_item(), key);
    under_optional("encoding_format"@, v.encoding_format_item(), key);
}

/// The five keys of the body differ from each other, and from `inputs`.
proof fn keys_differ()
    ensures
        "input"@ != "model"@,
        "input"@ != "input_type"@,
        "input"@ != "truncation"@,
        "input"@ != "encoding_format"@,
        "input"@ != "inputs"@,
        "model"@ != "input_type"@,
        "model"@ != "truncation"@,
        "model"@ != "encoding_format"@,
        "model"@ != "inputs"@,
        "input_type"@ != "truncation"@,
        "input_type"@ != "encoding_format"@,
        "input_type"@ != "inputs"@,
        "truncation"@ != "encoding_format"@,
        "truncation"@ != "inputs"@,
        "encoding_format"@ != "inputs"@,
{
    reveal_strlit("input");
    reveal_strlit("model");
    reveal_strlit("input_type");
    reveal_strlit("truncation");
    reveal_strlit("encoding_format");
    reveal_strlit("inputs");
    assert("input"@[0] != "model"@[0]);
    assert("input"@.len() != "input_type"@.len());
    assert("input"@.len() != "truncation"@.len());
    assert("input"@.len() != "encoding_format"@.len());
    assert("input"@.len() != "inputs"@.len());
    assert("model"@.len() != "input_type"@.len());
    assert("model"@.len() != "truncation"@.len());
    assert("model"@.len() != "encoding_format"@.len());
    assert("model"@.len() != "inputs"@.len());
    assert("input_type"@[0] != "truncation"@[0]);
    assert("input_type"@.len() != "encoding_format"@.len());
    assert("input_type"@.len() != "inputs"@.len());
    assert("truncation"@.len() != "encoding_format"@.len());
    assert("truncation"@.len() != "inputs"@.len());
    assert("encoding_format"@.len() != "inputs"@.len());
}

/// The body holds the two required fields, each once and with the value that
/// the request was made with. The inputs stand under `input`; nothing stands
/// under `inputs`.
pub proof fn required_fields_are_present(v: EmbeddingsRequestView)
    ensures
        under(v.entries(), "input"@) == seq![Item::Texts(v.inputs)],
        under(v.entries(), "model"@) == seq![Item::Text(v.model)],
        under(v.entries(), "inputs"@) == Seq::<Item>::empty(),
{
    keys_differ();
    entries_under(v, "input"@);
    entries_under(v, "model"@);
    entries_under(v, "inputs"@);
    assert(under(v.entries(), "input"@) =~= seq![Item::Texts(v.inputs)]);
    assert(under(v.entries(), "model"@) =~= seq![Item::Text(v.model)]);
    assert(under(v.entries(), "inputs"@) =~= Seq::<Item>::empty());
}

/// An optional field that is set stands in the body under its own name, once
/// and with its value; one that is not set leaves its key out.
pub proof fn optional_fields_follow_the_setters(v: EmbeddingsRequestView)
    ensures
        under(v.entries(), "input_type"@) == present(v.input_type_item()),
        under(v.entries(), "truncation"@) == present(v.truncation_item()),
        under(v.entries(), "encoding_format"@) == present(v.encoding_format_item()),
        has_key(v.entries(), "input_type"@) <==> v.input_type is Some,
        has_key(v.entries(), "truncation"@) <==> v.truncation is Some,
        has_key(v.entries(), "encoding_format"@) <==> v.encoding_format is Some,
{
    keys_differ();
    entries_under(v, "input_type"@);
    entries_under(v, "truncation"@);
    entries_under(v, "encoding_format"@);
    assert(under(v.entries(), "input_type"@) =~= present(v.input_type_item()));
    assert(under(v.entries(), "truncation"@) =~= present(v.truncation_item()));
    assert(under(v.entries(), "encoding_format"@) =~= present(v.encoding_format_item()));
}

/// The body has no key but the five of this request.
pub proof fn no_other_key(v: EmbeddingsRequestView, key: Seq<char>)
    requires
        key != "input"@,
        key != "model"@,
        key != "input_type"@,
        key != "truncation"@,
        key != "encoding_format"@,
    ensures
        !has_key(v.entries(), key),
{
    entries_under(v, key);
    assert(under(v.entries(), key) =~= Seq::<Item>::empty());
}

/// Setting an optional field puts its value under its key, and changes what
/// stands under no other key.
pub proof fn a_setter_writes_its_own_key(
    v: EmbeddingsRequestView,
    input_type: Seq<char>,
    truncation: bool,
    encoding_format: Seq<char>,
    key: Seq<char>,
)
    ensures
        under(v.with_input_type(input_type).entries(), "input_type"@) == seq![Item::Text(input_type)],
        under(v.with_truncation(truncation).entries(), "truncation"@) == seq![Item::Flag(truncation)],
        under(v.with_encoding_format(encoding_format).entries(), "encoding_format"@) == seq![Item::Text(encoding_format)],
        key != "input_type"@ ==> under(v.with_input_type(input_type).entries(), key) == under(v.entries(), key),
        key != "truncation"@ ==> under(v.with_truncation(truncation).entries(), key) == under(v.entries(), key),
        key != "encoding_format"@ ==> under(v.with_encoding_format(encoding_format).entries(), key) == under(v.entries(), key),
{
    optional_fields_follow_the_setters(v.with_input_type(input_type));
    optional_fields_follow_the_setters(v.with_truncation(truncation));
    optional_fields_follow_the_setters(v.with_encoding_format(encoding_format));
    entries_under(v, key);
    entries_under(v.with_input_type(input_type), key);
    entries_under(v.with_truncation(truncation), key);
    entries_under(v.with_encoding_format(encoding_format), key);
}

/// The order in which two setters are called does not matter.
pub proof fn setters_commute(
    v: EmbeddingsRequestView,
    input_type: Seq<char>,
    truncation: bool,
    encoding_format: Seq<char>,
)
    ensures
        v.with_input_type(input_type).with_truncation(truncation) == v.with_truncation(truncation).with_input_type(input_type),
        v.with_input_type(input_type).with_encoding_format(encoding_format) == v.with_encoding_format(encoding_format).with_input_type(input_type),
        v.with_truncation(truncation).with_encoding_format(encoding_format) == v.with_encoding_format(encoding_format).with_truncation(truncation),
{
}

/// A setter that is called again replaces what the first call set.
pub proof fn the_last_call_of_a_setter_counts(
    v: EmbeddingsRequestView,
    input_type: Seq<char>,
    truncation: bool,
    encoding_format: Seq<char>,
    input_type_again: Seq<char>,
    truncation_again: bool,
    encoding_format_again: Seq<char>,
)
    ensures
        v.with_input_type(input_type).with_input_type(input_type_again) == v.with_input_type(input_type_again),
        v.with_truncation(truncation).with_truncation(truncation_again) == v.with_truncation(truncation_again),
        v.with_encoding_format(encoding_format).with_encoding_format(encoding_format_again) == v.with_encoding_format(encoding_format_again),
{
}

/// Two requests made from the same values have the same body, character for
/// character.
pub proof fn equal_requests_have_equal_bodies(first: &EmbeddingsRequest, second: &EmbeddingsRequest)
    requires
        first@ == second@,
    ensures
        first@.body() == second@.body(),
{
}

impl<'a, 'b, 'c> EmbeddingsApi<'a, 'b, 'c> {
    /// The client that this endpoint belongs to.
    pub closed spec fn client(&self) -> AnthropicClient<'b, 'c> {
        *self.0
    }

    /// The embeddings endpoint of `client`.
    pub(crate) fn of(client: &'a AnthropicClient<'b, 'c>) -> (r: Self)
        ensures
            r.client() == *client,
    {
        EmbeddingsApi(client)
    }

    /// Prepares the POST of `request` to `/embeddings`.
    pub fn create(&self, request: EmbeddingsRequest) -> (r: PostRequest)
        ensures
            r@ == self.client().request("/embeddings"@, request@.body()),
    {
        self.0.post("/embeddings", request.to_json())
    }
}

} // verus!

//! What this library takes from `serde_json`: the text of strings, numbers and
//! documents, and the reading of a document from bytes.
//!
//! Nothing in this file is proved. Each item states what the named function of
//! `serde_json` does, and the rest of the library is proved from these
//! statements.

use vstd::prelude::*;

verus! {

/// `serde_json::Value`, a JSON document. Its inside is not visible here: a
/// document is carried, written out and compared, never taken apart.
#[verifier::external_type_specification]
#[verifier::external_body]
pub struct ExValue(serde_json::Value);

/// `serde_json::Number`, a JSON number, integer or floating point.
#[verifier::external_type_specification]
#[verifier::external_body]
pub struct ExNumber(serde_json::Number);

/// `serde_json::Error`, what reading a document fails with.
#[verifier::external_type_specification]
#[verifier::external_body]
pub struct ExError(serde_json::Error);

/// The JSON string literal for `text`: the text between double quotes, with
/// the quote, the backslash and the control characters escaped.
pub uninterp spec fn json_string(text: Seq<char>) -> Seq<char>;

/// The compact JSON text of a document.
pub uninterp spec fn value_text(value: serde_json::Value) -> Seq<char>;

/// The JSON text of a number.
pub uninterp spec fn number_text(number: serde_json::Number) -> Seq<char>;

/// The document that `bytes` spell, or `None` where they are not one JSON
/// document and nothing but white space after it.
pub uninterp spec fn json_document(bytes: Seq<u8>) -> Option<serde_json::Value>;

/// `serde_json::to_string` on a `str`. It writes into a `Vec<u8>`, which takes
/// every write, and a `str` has no other way to fail: the result is always
/// `Ok`, and holds the string literal.
#[verifier::external_body]
pub(crate) fn quote(text: &str) -> (r: Result<String, serde_json::Error>)
    ensures
        r is Ok,
        r->Ok_0@ == json_string(text@),
{
    serde_json::to_string(text)
}

/// `Display` for `serde_json::Value`, through `to_string`: the document in
/// compact form, without white space between its tokens.
#[verifier::external_body]
pub(crate) fn document_text(value: &serde_json::Value) -> (r: String)
    ensures
        r@ == value_text(*value),
{
    value.to_string()
}

/// `Display` for `serde_json::Number`, through `to_string`: the digits of an
/// integer, with a minus sign where it is negative, or the decimal text of a
/// float. The same number gives the same text.
#[verifier::external_body]
pub(crate) fn numeral(number: &serde_json::Number) -> (r: String)
    ensures
        r@ == number_text(*number),
{
    number.to_string()
}

/// `serde_json::from_slice` at `serde_json::Value`: reads one document and
/// fails where the bytes hold anything else. The same bytes give the same
/// outcome.
#[verifier::external_body]
pub(crate) fn read_document(bytes: &[u8]) -> (r: Result<serde_json::Value, serde_json::Error>)
    ensures
        match r {
            Ok(value) => json_document(bytes@) == Some(value),
            Err(_) => json_document(bytes@) is None,
        },
{
    serde_json::from_slice::<serde_json::Value>(bytes)
}

/// `Display` for `serde_json::Error`, through `to_string`: the message, with
/// the line and column where there is one. Nothing is claimed of the words.
#[verifier::external_body]
pub(crate) fn failure_text(error: &serde_json::Error) -> (r: String)
{
    error.to_string()
}

} // verus!

//! JSON documents, as `serde_json` reads, holds and writes them.
//!
//! A `serde_json::Value` is opaque to the proofs in this crate. What the rest of
//! the crate needs of one is given a name here, and each function marked
//! `external_body` states, without proof, that a call into `serde_json` returns
//! what the name stands for. Everything else is proved from those statements.

use vstd::prelude::*;

verus! {

/// `serde_json::Value`, a JSON document held in memory.
#[verifier::external_type_specification]
#[verifier::external_body]
pub struct ExValue(serde_json::Value);

/// `serde_json::Error`, the reason why some bytes are no JSON document.
#[verifier::external_type_specification]
#[verifier::external_body]
pub struct ExError(serde_json::Error);

/// What `serde_json::from_slice` makes of a body: the document, or the error
/// that says why the bytes are not one.
pub uninterp spec fn json_parse(body: Seq<u8>) -> Result<serde_json::Value, serde_json::Error>;

/// The member of an object under a key; `None` for a key the object lacks and
/// for a value that is no object.
pub uninterp spec fn json_member(v: serde_json::Value, key: Seq<char>) -> Option<
    serde_json::Value,
>;

/// The characters of a JSON string; `None` for any other kind of value.
pub uninterp spec fn json_string(v: serde_json::Value) -> Option<Seq<char>>;

/// A document written out as compact JSON text.
pub uninterp spec fn json_text(v: serde_json::Value) -> Seq<char>;

/// The message of a parse error.
pub uninterp spec fn json_error_text(e: serde_json::Error) -> Seq<char>;

/// A text written as a JSON string literal: quoted and escaped.
pub uninterp spec fn json_quoted(s: Seq<char>) -> Seq<char>;

/// `serde_json::from_slice` at type `Value`. Trusted: the outcome depends on
/// the bytes alone, and is what `json_parse` names.
#[verifier::external_body]
pub(crate) fn parse(body: &[u8]) -> (r: Result<serde_json::Value, serde_json::Error>)
    ensures
        r == json_parse(body@),
{
    serde_json::from_slice::<serde_json::Value>(body)
}

/// `Value::get` with a string key. Trusted: it hands out the member that
/// `json_member` names, and nothing where there is none.
#[verifier::external_body]
pub(crate) fn member<'a>(v: &'a serde_json::Value, key: &str) -> (r: Option<&'a serde_json::Value>)
    ensures
        r matches Some(m) ==> json_member(*v, key@) == Some(*m),
        r is None ==> json_member(*v, key@) is None,
{
    v.get(key)
}

/// `Value::as_str`. Trusted: it hands out the characters that `json_string`
/// names, and nothing for a value that is no string.
#[verifier::external_body]
pub(crate) fn as_text<'a>(v: &'a serde_json::Value) -> (r: Option<&'a str>)
    ensures
        r matches Some(s) ==> json_string(*v) == Some(s@),
        r is None ==> json_string(*v) is None,
{
    v.as_str()
}

/// `Value`'s `to_string`. Trusted: the text is what `json_text` names.
#[verifier::external_body]
pub(crate) fn render(v: &serde_json::Value) -> (r: String)
    ensures
        r@ == json_text(*v),
{
    v.to_string()
}

/// `serde_json::Error`'s `to_string`. Trusted: the text is what
/// `json_error_text` names.
#[verifier::external_body]
pub(crate) fn error_message(e: &serde_json::Error) -> (r: String)
    ensures
        r@ == json_error_text(*e),
{
    e.to_string()
}

/// `Value::from` a string slice, written out by `to_string`. Trusted: the
/// literal depends on the characters alone, and is what `json_quoted` names.
#[verifier::external_body]
pub(crate) fn quote(s: &str) -> (r: String)
    ensures
        r@ == json_quoted(s@),
{
    serde_json::Value::from(s).to_string()
}

/// The string under `key` in an object: `None` where the value is no object,
/// lacks the key, or holds something other than a string there.
pub open spec fn json_field(v: serde_json::Value, key: Seq<char>) -> Option<Seq<char>> {
    match json_member(v, key) {
        Some(m) => json_string(m),
        None => None,
    }
}

/// Is `found` the string that `json_field` names, or nothing where it names none?
pub open spec fn is_field(found: Option<String>, v: serde_json::Value, key: Seq<char>) -> bool {
    match found {
        Some(s) => json_field(v, key) == Some(s@),
        None => json_field(v, key) is None,
    }
}

/// Looks up the string under `key`.
pub fn field(v: &serde_json::Value, key: &str) -> (r: Option<String>)
    ensures
        is_field(r, *v, key@),
{
    match member(v, key) {
        Some(m) => match as_text(m) {
            Some(s) => Some(s.to_owned()),
            None => None,
        },
        None => None,
    }
}

} // verus!

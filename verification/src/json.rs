//! JSON documents, read and written by `serde_json`.
//!
//! Nothing in this module is proved. Each function hands its arguments to
//! `serde_json`, and its contract gives what comes back a name, so that the
//! rest of the library can say exactly how it uses the result.

use vstd::prelude::*;

verus! {

#[verifier::external_type_specification]
#[verifier::external_body]
pub struct ExValue(serde_json::Value);

/// The JSON document that `text` holds; none where `text` is not one
/// complete JSON document.
pub uninterp spec fn json_document(text: Seq<char>) -> Option<serde_json::Value>;

/// The indented text of a JSON document; none where it cannot be written.
pub uninterp spec fn json_pretty(document: serde_json::Value) -> Option<Seq<char>>;

/// The string that a JSON document holds under `key`; none where the
/// document is not an object, has no such key, or holds something other
/// than a string there.
pub uninterp spec fn json_string_member(document: serde_json::Value, key: Seq<char>) -> Option<
    Seq<char>,
>;

/// The JSON object whose members are the given pairs of key and string.
pub uninterp spec fn json_object(members: Seq<(Seq<char>, Seq<char>)>) -> serde_json::Value;

/// Calls `serde_json::from_str` for a `serde_json::Value`. The contract
/// claims only that the outcome depends on the text alone.
#[verifier::external_body]
pub(crate) fn parse_json(text: &str) -> (document: Option<serde_json::Value>)
    ensures
        document == json_document(text@),
{
    serde_json::from_str::<serde_json::Value>(text).ok()
}

/// Calls `serde_json::to_string_pretty` on a `serde_json::Value`. The
/// contract claims only that the outcome depends on the document alone.
#[verifier::external_body]
pub(crate) fn render_pretty(document: &serde_json::Value) -> (text: Option<String>)
    ensures
        text.deep_view() == json_pretty(*document),
{
    serde_json::to_string_pretty(document).ok()
}

/// Indexes a `serde_json::Value` by a key and calls `Value::as_str` on what
/// is there. The contract claims only that the outcome depends on the
/// document and the key alone.
#[verifier::external_body]
pub(crate) fn string_member(document: &serde_json::Value, key: &str) -> (found: Option<String>)
    ensures
        found.deep_view() == json_string_member(*document, key@),
{
    document[key].as_str().map(String::from)
}

/// Collects pairs of key and string into a `serde_json::Map` and wraps it
/// as `Value::Object`. The contract claims only that the outcome depends on
/// the pairs alone.
#[verifier::external_body]
pub(crate) fn object_of(members: &Vec<(String, String)>) -> (document: serde_json::Value)
    ensures
        document == json_object(members.deep_view()),
{
    serde_json::Value::Object(
        members.iter().map(|m| (m.0.clone(), serde_json::Value::String(m.1.clone()))).collect(),
    )
}

} // verus!

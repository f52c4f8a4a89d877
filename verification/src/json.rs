//! Trusted boundary around `serde_json`.
//!
//! The library never looks inside a parsed JSON value itself: the wrappers
//! below make the calls, and their contracts are stated over uninterpreted
//! names for the projections the pipeline reads — whether a text parses,
//! and what stands at a JSON Pointer path of the parsed document. Parsing
//! is deterministic and the backing map is ordered, so each projection is a
//! function of the manifest or response text alone.

use vstd::prelude::*;

verus! {

#[verifier::external_type_specification]
#[verifier::external_body]
pub struct ExValue(serde_json::Value);

#[verifier::external_type_specification]
#[verifier::external_body]
pub struct ExJsonError(serde_json::Error);

/// Whether a text is well-formed JSON, as `serde_json::from_str` decides it.
pub uninterp spec fn json_parses(s: Seq<char>) -> bool;

/// The string value at a JSON Pointer path of the document a text parses
/// to, when that path resolves to a string.
pub uninterp spec fn text_str_at(s: Seq<char>, pointer: Seq<char>) -> Option<Seq<char>>;

/// The keys of the object at a JSON Pointer path of the document a text
/// parses to, in the document map's own iteration order, when that path
/// resolves to an object.
pub uninterp spec fn text_obj_keys(s: Seq<char>, pointer: Seq<char>) -> Option<Seq<Seq<char>>>;

/// The string value at a JSON Pointer path of an already parsed document.
pub uninterp spec fn value_str_at(v: serde_json::Value, pointer: Seq<char>) -> Option<Seq<char>>;

/// The object keys at a JSON Pointer path of an already parsed document.
pub uninterp spec fn value_obj_keys(v: serde_json::Value, pointer: Seq<char>) -> Option<
    Seq<Seq<char>>,
>;

/// Relies on `serde_json::from_str::<Value>`: it succeeds exactly on
/// well-formed JSON, the parse depends on the text alone, and every
/// projection of the parsed value is therefore a function of the text.
#[verifier::external_body]
pub(crate) fn parse_json(text: &str) -> (r: Result<serde_json::Value, serde_json::Error>)
    ensures
        r is Ok <==> json_parses(text@),
        r matches Ok(v) ==> forall|p: Seq<char>| #[trigger]
            value_str_at(v, p) == text_str_at(text@, p),
        r matches Ok(v) ==> forall|p: Seq<char>| #[trigger]
            value_obj_keys(v, p) == text_obj_keys(text@, p),
{
    serde_json::from_str(text)
}

/// Relies on `serde_json::Value::pointer` and `Value::as_str`: the value at
/// the JSON Pointer path, when present and a string.
#[verifier::external_body]
pub(crate) fn json_string_at(v: &serde_json::Value, pointer: &str) -> (r: Option<String>)
    ensures
        r.deep_view() == value_str_at(*v, pointer@),
{
    v.pointer(pointer).and_then(serde_json::Value::as_str).map(|s| s.to_owned())
}

/// Relies on `serde_json::Value::pointer`, `Value::as_object` and
/// `Map::keys`: the keys of the object at the JSON Pointer path, in the
/// map's own iteration order, when the path resolves to an object.
#[verifier::external_body]
pub(crate) fn json_object_keys_at(v: &serde_json::Value, pointer: &str) -> (r: Option<Vec<String>>)
    ensures
        r.deep_view() == value_obj_keys(*v, pointer@),
{
    v.pointer(pointer).and_then(serde_json::Value::as_object).map(
        |m| m.keys().cloned().collect(),
    )
}

} // verus!

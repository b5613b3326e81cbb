//! JSON documents, read through `serde_json`.
//!
//! A document is a `serde_json::Value`. The library does not look inside
//! one: it asks `serde_json` for its items, its members and its text, and
//! knows each answer by a name. The logic that reads a document is verified
//! over these names.

use vstd::prelude::*;

verus! {

/// `serde_json::Value`, a JSON document, carried through as it is.
#[verifier::external_type_specification]
#[verifier::external_body]
pub struct ExJsonValue(serde_json::Value);

/// The document that `serde_json::from_str` reads from `text`; `None` where
/// it refuses the text.
pub uninterp spec fn json_document(text: Seq<char>) -> Option<serde_json::Value>;

/// The items of `value` where it is an array, as `Value::as_array` gives
/// them.
pub uninterp spec fn json_items(value: serde_json::Value) -> Option<Seq<serde_json::Value>>;

/// The member of `value` under `key` where `value` is an object that has
/// one, as `Value::get` gives it.
pub uninterp spec fn json_member(value: serde_json::Value, key: Seq<char>) -> Option<
    serde_json::Value,
>;

/// The text of `value` where it is a string, as `Value::as_str` gives it.
pub uninterp spec fn json_text(value: serde_json::Value) -> Option<Seq<char>>;

/// Reads a document with `serde_json::from_str`. What is read is a function
/// of the text alone; the library knows it as [`json_document`].
#[verifier::external_body]
pub(crate) fn parse_document(text: &str) -> (r: Option<serde_json::Value>)
    ensures
        r == json_document(text@),
{
    match serde_json::from_str::<serde_json::Value>(text) {
        Ok(value) => Some(value),
        Err(_) => None,
    }
}

/// The items of an array, by `serde_json::Value::as_array`; `None` for a
/// value that is no array.
#[verifier::external_body]
pub(crate) fn items_of(value: &serde_json::Value) -> (r: Option<&Vec<serde_json::Value>>)
    ensures
        match r {
            Some(items) => json_items(*value) == Some(items@),
            None => json_items(*value) is None,
        },
{
    value.as_array()
}

/// The member under `key`, by `serde_json::Value::get`; `None` for a value
/// that is no object or has no such member.
#[verifier::external_body]
pub(crate) fn member_of<'a>(value: &'a serde_json::Value, key: &str) -> (r: Option<&'a serde_json::Value>)
    ensures
        match r {
            Some(member) => json_member(*value, key@) == Some(*member),
            None => json_member(*value, key@) is None,
        },
{
    value.get(key)
}

/// The text of a string, by `serde_json::Value::as_str`; `None` for a value
/// that is no string.
#[verifier::external_body]
pub(crate) fn text_of(value: &serde_json::Value) -> (r: Option<&str>)
    ensures
        match r {
            Some(text) => json_text(*value) == Some(text@),
            None => json_text(*value) is None,
        },
{
    value.as_str()
}

} // verus!

//! Access to JSON documents.
//!
//! Parsing and the document tree belong to `serde_json`. This module gives the
//! tree a mathematical model, [`Json`], and states over that model what the
//! handful of `serde_json` operations used by the engine return.

use vstd::prelude::*;

verus! {

/// The mathematical model of a JSON document.
///
/// A number carries no payload: nothing in the engine reads one.
pub enum Json {
    Null,
    Bool(bool),
    Number,
    Text(Seq<char>),
    Array(Seq<Json>),
    Object(Map<Seq<char>, Json>),
}

/// `serde_json::Value`, the document tree. Nothing of its inside is known
/// but through [`json_content`].
#[verifier::external_type_specification]
#[verifier::external_body]
pub struct ExValue(serde_json::Value);

/// `serde_json::Error`, of which nothing is read.
#[verifier::external_type_specification]
#[verifier::external_body]
pub struct ExJsonError(serde_json::Error);

/// What the document tree `value` holds.
pub uninterp spec fn json_content(value: serde_json::Value) -> Json;

/// The document that `serde_json` reads from the text `bytes`, if it reads one.
pub uninterp spec fn json_document(bytes: Seq<u8>) -> Option<Json>;

/// `serde_json::from_slice`, read as a `serde_json::Value`: succeeds exactly
/// on the texts that hold a document, and the tree it returns holds that
/// document.
#[verifier::external_body]
pub(crate) fn parse_document(bytes: &[u8]) -> (parsed: Result<serde_json::Value, serde_json::Error>)
    ensures
        parsed is Ok <==> json_document(bytes@) is Some,
        parsed matches Ok(value) ==> Some(json_content(value)) == json_document(bytes@),
{
    serde_json::from_slice(bytes)
}

/// `serde_json::Value::get` with a string key: the member of an object
/// under that key, and `None` for a missing key or a value that is no
/// object.
#[verifier::external_body]
pub(crate) fn member<'a>(value: &'a serde_json::Value, key: &str) -> (found: Option<
    &'a serde_json::Value,
>)
    ensures
        (match json_content(*value) {
            Json::Object(members) => if members.contains_key(key@) {
                found matches Some(inner) && json_content(*inner) == members[key@]
            } else {
                found is None
            },
            _ => found is None,
        }),
{
    value.get(key)
}

/// `serde_json::Value::as_str`: the text of a string value, `None` for any
/// other value.
pub assume_specification<'a>[ serde_json::Value::as_str ](value: &'a serde_json::Value) -> (text:
    Option<&'a str>)
    ensures
        (match json_content(*value) {
            Json::Text(chars) => text matches Some(s) && s@ == chars,
            _ => text is None,
        }),
;

/// `serde_json::Value::as_array`: the elements of an array value in order,
/// `None` for any other value.
pub assume_specification<'a>[ serde_json::Value::as_array ](
    value: &'a serde_json::Value,
) -> (items: Option<&'a Vec<serde_json::Value>>)
    ensures
        (match json_content(*value) {
            Json::Array(elements) => items matches Some(vector) && vector@.len() == elements.len()
                && forall|i: int|
                0 <= i < elements.len() ==> json_content(#[trigger] vector@[i]) == elements[i],
            _ => items is None,
        }),
;

impl Json {
    /// The member under `key` where this is an object that has one.
    pub open spec fn member(self, key: Seq<char>) -> Option<Json> {
        match self {
            Json::Object(members) => if members.contains_key(key) {
                Some(members[key])
            } else {
                None
            },
            _ => None,
        }
    }

    /// The text where this is a string.
    pub open spec fn text(self) -> Option<Seq<char>> {
        match self {
            Json::Text(chars) => Some(chars),
            _ => None,
        }
    }

    /// The element at `index` where this is an array that has one.
    pub open spec fn element(self, index: int) -> Option<Json> {
        match self {
            Json::Array(elements) => if 0 <= index < elements.len() {
                Some(elements[index])
            } else {
                None
            },
            _ => None,
        }
    }
}

/// The element of an array value at `index`, `None` for an index out of
/// range or a value that is no array.
pub fn element<'a>(value: &'a serde_json::Value, index: usize) -> (found: Option<
    &'a serde_json::Value,
>)
    ensures
        (match json_content(*value).element(index as int) {
            Some(inner) => found matches Some(v) && json_content(*v) == inner,
            None => found is None,
        }),
{
    match value.as_array() {
        Some(items) => if index < items.len() {
            Some(&items[index])
        } else {
            None
        },
        None => None,
    }
}

} // verus!

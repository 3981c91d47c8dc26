//! JSON documents, read by `serde_json`.
//!
//! A document is a `serde_json::Value`, which the verifier cannot look
//! into. What a value holds is given names here, and each accessor of
//! `serde_json` that the library calls is tied to the name of what it
//! returns. Nothing here is proved: it is what the library takes on trust
//! of `serde_json`.

use vstd::prelude::*;

verus! {

/// `serde_json::Value`: any value of JSON. It is carried as it is; what
/// it holds is known by the names below only.
#[verifier::external_type_specification]
#[verifier::external_body]
pub struct ExValue(serde_json::Value);

/// The document that a text is the JSON notation of, if it is that of
/// any.
pub uninterp spec fn json_document(text: Seq<char>) -> Option<serde_json::Value>;

/// The member of an object under a key, if the value is an object and
/// has that key.
pub uninterp spec fn json_member(value: serde_json::Value, key: Seq<char>) -> Option<
    serde_json::Value,
>;

/// The elements of an array in order, if the value is an array.
pub uninterp spec fn json_items(value: serde_json::Value) -> Option<Seq<serde_json::Value>>;

/// The text of a string, if the value is a string.
pub uninterp spec fn json_text(value: serde_json::Value) -> Option<Seq<char>>;

/// The number that the value is, if it is an integer that a `u64` holds.
pub uninterp spec fn json_count(value: serde_json::Value) -> Option<u64>;

/// `serde_json::from_str` for a `Value`, with its error dropped: the
/// document that the text denotes, or nothing where the text is not
/// JSON.
#[verifier::external_body]
pub(crate) fn parse_document(text: &str) -> (document: Option<serde_json::Value>)
    ensures
        document == json_document(text@),
{
    serde_json::from_str(text).ok()
}

/// `Value::get` with a string for its index: the member under `key`,
/// or nothing where the value is no object or has no such key.
#[verifier::external_body]
pub(crate) fn member<'a>(value: &'a serde_json::Value, key: &str) -> (found: Option<
    &'a serde_json::Value,
>)
    ensures
        match found {
            Some(inner) => json_member(*value, key@) == Some(*inner),
            None => json_member(*value, key@) is None,
        },
{
    value.get(key)
}

/// `Value::as_array`: the vector of an array, and nothing for any other
/// value.
pub assume_specification[ serde_json::Value::as_array ](value: &serde_json::Value) -> (items:
    Option<&Vec<serde_json::Value>>)
    ensures
        match items {
            Some(list) => json_items(*value) == Some(list@),
            None => json_items(*value) is None,
        },
;

/// `Value::as_str`: the text of a string, and nothing for any other
/// value.
pub assume_specification[ serde_json::Value::as_str ](value: &serde_json::Value) -> (text:
    Option<&str>)
    ensures
        match text {
            Some(held) => json_text(*value) == Some(held@),
            None => json_text(*value) is None,
        },
;

/// `Value::as_u64`: the value as a `u64` where it is an integer in that
/// range, and nothing for any other value.
pub assume_specification[ serde_json::Value::as_u64 ](value: &serde_json::Value) -> (count:
    Option<u64>)
    ensures
        count == json_count(*value),
;

} // verus!

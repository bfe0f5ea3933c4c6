//! JSON documents, read through `serde_json`.

use vstd::prelude::*;

use serde_json::Value;

verus! {

/// `serde_json::Value`, read only through the functions below.
#[verifier::external_type_specification]
#[verifier::external_body]
pub struct ExValue(serde_json::Value);

/// The document that a body parses to, if the body is one JSON value.
pub uninterp spec fn json_document(body: Seq<u8>) -> Option<Value>;

/// The elements of a value, if the value is an array.
pub uninterp spec fn json_items(value: Value) -> Option<Seq<Value>>;

/// The characters of a value, if the value is a string.
pub uninterp spec fn json_text(value: Value) -> Option<Seq<char>>;

/// The member of a value under a key, if the value is an object that has
/// the key.
pub uninterp spec fn json_member(value: Value, key: Seq<char>) -> Option<Value>;

/// `serde_json::from_slice` for a `Value`: the document, or `None` where the
/// parser reports an error. The same bytes always give the same outcome.
#[verifier::external_body]
pub(crate) fn parse_document(body: &[u8]) -> (document: Option<Value>)
    ensures
        document == json_document(body@),
{
    serde_json::from_slice::<Value>(body).ok()
}

/// `serde_json::Value::as_array`: the elements of an array, `None` for every
/// other kind of value.
#[verifier::external_body]
pub(crate) fn value_as_array(value: &Value) -> (items: Option<&Vec<Value>>)
    ensures
        match items {
            Some(list) => json_items(*value) == Some(list@),
            None => json_items(*value) is None,
        },
{
    value.as_array()
}

/// `serde_json::Value::as_str`: the characters of a string, `None` for every
/// other kind of value.
#[verifier::external_body]
pub(crate) fn value_as_str(value: &Value) -> (text: Option<&str>)
    ensures
        match text {
            Some(s) => json_text(*value) == Some(s@),
            None => json_text(*value) is None,
        },
{
    value.as_str()
}

/// `serde_json::Value::get` with a string key: the member of an object under
/// that key, `None` where the object has no such key or the value is no
/// object.
#[verifier::external_body]
pub(crate) fn value_member<'a>(value: &'a Value, key: &str) -> (member: Option<&'a Value>)
    ensures
        match member {
            Some(found) => json_member(*value, key@) == Some(*found),
            None => json_member(*value, key@) is None,
        },
{
    value.get(key)
}

} // verus!

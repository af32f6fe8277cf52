//! JSON values exchanged between workflow tasks.
//!
//! The values themselves are `serde_json::Value`s; the library only carries
//! them from task to task and bundles several of them into an array.
use serde_json::Value;
use vstd::prelude::*;

verus! {

#[verifier::external_type_specification]
#[verifier::external_body]
pub struct ExJsonValue(serde_json::Value);

/// The JSON array whose elements are `items`, in order
/// (what `serde_json` builds from a `Vec<Value>`).
pub uninterp spec fn json_array(items: Seq<Value>) -> Value;

/// The JSON value that `serde_json` builds from an optional value
/// (`Value::Null` for `None`).
pub uninterp spec fn json_from_option(value: Option<Value>) -> Value;

/// Wraps `<Value as From<Vec<Value>>>::from`: the result is the JSON array of the
/// given items, in the given order.
#[verifier::external_body]
pub(crate) fn array_of(items: Vec<Value>) -> (array: Value)
    ensures
        array == json_array(items@),
{
    Value::from(items)
}

/// Wraps `<Value as From<Option<Value>>>::from`: a present value is passed through
/// unchanged; an absent one becomes `Value::Null`, which is left to the name.
#[verifier::external_body]
pub(crate) fn value_from_option(value: Option<Value>) -> (json: Value)
    ensures
        json == json_from_option(value),
        value matches Some(inner) ==> json == inner,
{
    Value::from(value)
}

/// Wraps `<Value as Clone>::clone`, which the crate derives: the copy is the same value.
#[verifier::external_body]
pub(crate) fn clone_value(value: &Value) -> (copy: Value)
    ensures
        copy == *value,
{
    value.clone()
}

/// The JSON value that `serde_json` parses from `text`, or none when the
/// text is not one JSON value.
pub uninterp spec fn json_parse(text: Seq<char>) -> Option<Value>;

/// The bytes of `value` as compact JSON text, as `serde_json` writes them;
/// none if writing fails.
pub uninterp spec fn json_serialized(value: Value) -> Option<Seq<u8>>;

/// Wraps `serde_json::from_str::<Value>`: the parsed value, or none when
/// parsing fails (the error itself is dropped).
#[verifier::external_body]
pub(crate) fn parse_json(text: &str) -> (parsed: Option<Value>)
    ensures
        parsed == json_parse(text@),
{
    serde_json::from_str::<Value>(text).ok()
}

/// Wraps `serde_json::to_vec`: the JSON bytes of `value`, or none when
/// writing fails (the error itself is dropped).
#[verifier::external_body]
pub(crate) fn serialize_json(value: &Value) -> (bytes: Option<Vec<u8>>)
    ensures
        match bytes {
            Some(b) => json_serialized(*value) == Some(b@),
            None => json_serialized(*value) is None,
        },
{
    serde_json::to_vec(value).ok()
}

} // verus!

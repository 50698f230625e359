//! JSON values that the library carries without reading them.

use vstd::prelude::*;

verus! {

#[verifier::external_type_specification]
#[verifier::external_body]
pub struct ExJsonValue(serde_json::Value);

/// `serde_json::Value::clone`: the copy is the same value.
#[verifier::external_body]
pub(crate) fn clone_json(v: &serde_json::Value) -> (r: serde_json::Value)
    ensures
        r == *v,
{
    v.clone()
}

/// `serde_json::Map::new` wrapped as a JSON object: the empty object `{}`.
/// Nothing is stated of the value; it is carried, never read.
#[verifier::external_body]
pub(crate) fn empty_json_object() -> serde_json::Value {
    serde_json::Value::Object(serde_json::Map::new())
}

/// `Into<serde_json::Value>` (serde_json's `From` impls): the JSON form of a
/// plain value: a string, a number, a boolean, `null` for `None`, an array
/// for a `Vec`. Nothing is stated of the value; it is carried, never read.
#[verifier::external_body]
pub(crate) fn json_of<T: Into<serde_json::Value>>(v: T) -> serde_json::Value {
    v.into()
}

/// `serde_json::Map`'s `FromIterator`, wrapped as `Value::Object`: the JSON
/// object with the given fields. Nothing is stated of the value; it is
/// carried, never read.
#[verifier::external_body]
pub(crate) fn json_object(fields: Vec<(String, serde_json::Value)>) -> serde_json::Value {
    serde_json::Value::Object(fields.into_iter().collect())
}

} // verus!

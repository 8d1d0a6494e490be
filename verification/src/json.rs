//! JSON values, which messages and packets carry as they are.
use serde_json::Value;
use vstd::prelude::*;

verus! {

/// A JSON value. Opaque: it is carried from where it came to where it goes.
#[verifier::external_type_specification]
#[verifier::external_body]
pub struct ExValue(serde_json::Value);

/// What serialising a value into JSON may fail with.
#[verifier::external_type_specification]
#[verifier::external_body]
pub struct ExSerializeError(serde_json::Error);

/// Whether `Value::is_null` answers `true` for a JSON value.
pub uninterp spec fn json_is_null(value: Value) -> bool;

/// `Value::is_null` answers whether a JSON value is `Value::Null`. The answer is a
/// function of the value.
pub assume_specification[ serde_json::Value::is_null ](value: &serde_json::Value) -> (null: bool)
    ensures
        null == json_is_null(*value),
;

/// Whether the value is null, as that of a message without data is.
pub fn is_null(value: &Value) -> (null: bool)
    ensures
        null == json_is_null(*value),
{
    value.is_null()
}

/// Calls `Value::default`, which is `Value::Null`: a value for which
/// `Value::is_null` answers `true`.
#[verifier::external_body]
pub(crate) fn default_value() -> (value: Value)
    ensures
        json_is_null(value),
{
    Value::default()
}

/// `Value::clone` makes a value that equals the one it copies.
pub assume_specification[ <serde_json::Value as Clone>::clone ](value: &serde_json::Value) -> (copy:
    serde_json::Value)
    ensures
        copy == *value,
;

/// Calls `serde_json::to_value` on something that is a JSON value already.
/// Serialising such a value builds the same value again and does not fail:
/// every key of an object is a string, and every number is one that JSON has.
#[verifier::external_body]
pub(crate) fn to_value(data: Value) -> (value: Result<Value, serde_json::Error>)
    ensures
        value is Ok,
        value->Ok_0 == data,
{
    serde_json::to_value(data)
}

} // verus!

//! The JSON documents that carry protocol frames, read through `serde_json`.
//!
//! Nothing here is proved. Each function of `serde_json` that the decoder
//! calls has a wrapper, and what the function returns has a name; a wrapper
//! claims no more than that its result is what the name stands for, which is
//! to say that the function's result depends on its arguments alone.

use vstd::prelude::*;

verus! {

/// A parsed JSON value of `serde_json`; its inside is not visible to proofs.
#[verifier::external_type_specification]
#[verifier::external_body]
pub struct ExJsonValue(serde_json::Value);

/// The value that `serde_json::from_str` reads from a text, if it is JSON.
pub uninterp spec fn json_document(text: Seq<char>) -> Option<serde_json::Value>;

/// The member that `serde_json::Value::get` finds under a key.
pub uninterp spec fn json_member(doc: serde_json::Value, key: Seq<char>) -> Option<
    serde_json::Value,
>;

/// The number that `serde_json::Value::as_u64` reads from a value.
pub uninterp spec fn json_u64(value: serde_json::Value) -> Option<u64>;

/// The text that `serde_json::Value::as_str` reads from a value.
pub uninterp spec fn json_str(value: serde_json::Value) -> Option<Seq<char>>;

/// Whether `serde_json::Value::is_null` holds of a value.
pub uninterp spec fn json_is_null(value: serde_json::Value) -> bool;

/// Calls `serde_json::from_str` for a `serde_json::Value`. The result is
/// `None` where the call fails, and otherwise the parsed document. The
/// contract only names the result.
#[verifier::external_body]
pub(crate) fn parse_document(text: &str) -> (doc: Option<serde_json::Value>)
    ensures
        doc == json_document(text@),
{
    match serde_json::from_str::<serde_json::Value>(text) {
        Ok(value) => Some(value),
        Err(_) => None,
    }
}

/// Calls `serde_json::Value::get` with a string key: the member of an object
/// under that key, and `None` where there is none or the value is no object.
/// The contract only names the result.
#[verifier::external_body]
pub(crate) fn member<'a>(doc: &'a serde_json::Value, key: &str) -> (found: Option<
    &'a serde_json::Value,
>)
    ensures
        match found {
            Some(value) => json_member(*doc, key@) == Some(*value),
            None => json_member(*doc, key@) is None,
        },
{
    doc.get(key)
}

/// Calls `serde_json::Value::as_u64`: the number, where the value is an
/// integer that fits in `u64`. The contract only names the result.
#[verifier::external_body]
pub(crate) fn as_u64(value: &serde_json::Value) -> (number: Option<u64>)
    ensures
        number == json_u64(*value),
{
    value.as_u64()
}

/// Calls `serde_json::Value::as_str`: the text, where the value is a string.
/// The contract only names the result.
#[verifier::external_body]
pub(crate) fn as_str<'a>(value: &'a serde_json::Value) -> (text: Option<&'a str>)
    ensures
        match text {
            Some(s) => json_str(*value) == Some(s@),
            None => json_str(*value) is None,
        },
{
    value.as_str()
}

/// Calls `serde_json::Value::is_null`. The contract only names the result.
#[verifier::external_body]
pub(crate) fn is_null(value: &serde_json::Value) -> (null: bool)
    ensures
        null == json_is_null(*value),
{
    value.is_null()
}

} // verus!

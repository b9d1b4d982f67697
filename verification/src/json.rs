//! The JSON boundary: `serde_json` reads and writes the bodies, and the rest of
//! the library reasons about a JSON value through its compact text.
//!
//! Nothing in this file is proved. Each item states what one `serde_json`
//! function does, over the names declared here.

use vstd::prelude::*;

verus! {

#[verifier::external_type_specification]
#[verifier::external_body]
pub struct ExJsonValue(serde_json::Value);

#[verifier::external_type_specification]
#[verifier::external_body]
pub struct ExJsonError(serde_json::Error);

/// The compact JSON text of a value: what `serde_json::to_string` returns for it
/// where it succeeds. A value is known to the contracts only by this text, which
/// stands for all that the value holds.
pub uninterp spec fn json_text(value: serde_json::Value) -> Seq<char>;

/// Whether `serde_json::to_string` succeeds on the value with text `value`.
pub uninterp spec fn json_writable(value: Seq<char>) -> bool;

/// The text of the value that `serde_json::from_slice` reads from `body`, or
/// `None` where it rejects `body`.
pub uninterp spec fn json_parsed(body: Seq<u8>) -> Option<Seq<char>>;

/// The text of the member that `Value::get` finds under `key` in the value with
/// text `value`, or `None` where it finds none.
pub uninterp spec fn json_member(value: Seq<char>, key: Seq<char>) -> Option<Seq<char>>;

/// The string that `Value::as_str` gives for the value with text `value`, or
/// `None` where that value is not a JSON string.
pub uninterp spec fn json_string(value: Seq<char>) -> Option<Seq<char>>;

/// The number that `Value::as_u64` gives for the value with text `value`, or
/// `None` where that value is not an integer that a `u64` holds.
pub uninterp spec fn json_unsigned(value: Seq<char>) -> Option<u64>;

/// What `Value::is_object` answers for the value with text `value`.
pub uninterp spec fn json_is_object(value: Seq<char>) -> bool;

/// The view of an optional borrowed string.
pub open spec fn text_of(s: Option<&str>) -> Option<Seq<char>> {
    match s {
        Some(s) => Some(s@),
        None => None,
    }
}

/// The text of an optional borrowed value.
pub open spec fn json_text_of(value: Option<&serde_json::Value>) -> Option<Seq<char>> {
    match value {
        Some(v) => Some(json_text(*v)),
        None => None,
    }
}

/// `serde_json::from_slice` at `Value`: the value read from `body` has the text
/// `json_parsed(body)`, and the call fails exactly where that is `None`.
#[verifier::external_body]
pub(crate) fn parse(body: &[u8]) -> (r: Result<serde_json::Value, serde_json::Error>)
    ensures
        match r {
            Ok(value) => json_parsed(body@) == Some(json_text(value)),
            Err(_) => json_parsed(body@) is None,
        },
{
    serde_json::from_slice::<serde_json::Value>(body)
}

/// `serde_json::to_string` at `Value`: it succeeds exactly where `json_writable`
/// says so, and the string is then the value's text.
#[verifier::external_body]
pub(crate) fn encode(value: &serde_json::Value) -> (r: Result<String, serde_json::Error>)
    ensures
        match r {
            Ok(text) => json_writable(json_text(*value)) && text@ == json_text(*value),
            Err(_) => !json_writable(json_text(*value)),
        },
{
    serde_json::to_string(value)
}

/// `Value::get` with a string key: the member found under `key`, as
/// `json_member` names it.
#[verifier::external_body]
pub(crate) fn member<'a>(value: &'a serde_json::Value, key: &str) -> (r: Option<&'a serde_json::Value>)
    ensures
        json_text_of(r) == json_member(json_text(*value), key@),
{
    value.get(key)
}

/// `Value::as_str`: the string held, as `json_string` names it.
pub assume_specification<'a>[ serde_json::Value::as_str ](value: &'a serde_json::Value) -> (r: Option<&'a str>)
    ensures
        text_of(r) == json_string(json_text(*value)),
;

/// `Value::as_u64`: the number held, as `json_unsigned` names it.
pub assume_specification[ serde_json::Value::as_u64 ](value: &serde_json::Value) -> (r: Option<u64>)
    ensures
        r == json_unsigned(json_text(*value)),
;

/// `Value::is_object`: the answer, as `json_is_object` names it.
pub assume_specification[ serde_json::Value::is_object ](value: &serde_json::Value) -> (r: bool)
    ensures
        r == json_is_object(json_text(*value)),
;

/// `Value::clone`: the copy has the text of the value copied.
pub assume_specification[ <serde_json::Value as Clone>::clone ](value: &serde_json::Value) -> (r: serde_json::Value)
    ensures
        json_text(r) == json_text(*value),
;

} // verus!

//! Scalar members of a JSON status document, as `serde_json` reads them.

use vstd::prelude::*;

verus! {

/// What `serde_json` reports as the unsigned integer member `key` of the
/// top-level object of the JSON text `raw`.
pub uninterp spec fn json_top_u64(raw: Seq<char>, key: Seq<char>) -> Option<u64>;

/// What `serde_json` reports as the unsigned integer member `key` of the
/// object member `section` of the top-level object of the JSON text `raw`.
pub uninterp spec fn json_nested_u64(raw: Seq<char>, section: Seq<char>, key: Seq<char>) -> Option<
    u64,
>;

/// What `serde_json` reports as the signed integer member `key` of the object
/// member `section` of the top-level object of the JSON text `raw`.
pub uninterp spec fn json_nested_i64(raw: Seq<char>, section: Seq<char>, key: Seq<char>) -> Option<
    i64,
>;

/// What `serde_json` reports as the boolean member `key` of the object member
/// `section` of the top-level object of the JSON text `raw`.
pub uninterp spec fn json_nested_bool(raw: Seq<char>, section: Seq<char>, key: Seq<char>) -> Option<
    bool,
>;

/// What `serde_json` reports as the string member `key` of the object member
/// `section` of the top-level object of the JSON text `raw`.
pub uninterp spec fn json_nested_str(raw: Seq<char>, section: Seq<char>, key: Seq<char>) -> Option<
    Seq<char>,
>;

/// Parses `raw` with `serde_json::from_str` into a `serde_json::Value` and
/// reads member `key` with `Value::get` and `Value::as_u64`. The contract
/// claims only that the answer depends on `raw` and `key` alone; it is `None`
/// when the text is not JSON, the member is absent or not an unsigned integer.
#[verifier::external_body]
pub(crate) fn json_top_level_u64(raw: &str, key: &str) -> (r: Option<u64>)
    ensures
        r == json_top_u64(raw@, key@),
{
    let value: serde_json::Value = serde_json::from_str(raw).ok()?;
    value.get(key)?.as_u64()
}

/// Parses `raw` with `serde_json::from_str`, then reads `section` and `key`
/// with `Value::get` and converts with `Value::as_u64`. The contract claims
/// only that the answer depends on `raw`, `section` and `key` alone.
#[verifier::external_body]
pub(crate) fn json_section_u64(raw: &str, section: &str, key: &str) -> (r: Option<u64>)
    ensures
        r == json_nested_u64(raw@, section@, key@),
{
    let value: serde_json::Value = serde_json::from_str(raw).ok()?;
    value.get(section)?.get(key)?.as_u64()
}

/// Parses `raw` with `serde_json::from_str`, then reads `section` and `key`
/// with `Value::get` and converts with `Value::as_i64`. The contract claims
/// only that the answer depends on `raw`, `section` and `key` alone.
#[verifier::external_body]
pub(crate) fn json_section_i64(raw: &str, section: &str, key: &str) -> (r: Option<i64>)
    ensures
        r == json_nested_i64(raw@, section@, key@),
{
    let value: serde_json::Value = serde_json::from_str(raw).ok()?;
    value.get(section)?.get(key)?.as_i64()
}

/// Parses `raw` with `serde_json::from_str`, then reads `section` and `key`
/// with `Value::get` and converts with `Value::as_bool`. The contract claims
/// only that the answer depends on `raw`, `section` and `key` alone.
#[verifier::external_body]
pub(crate) fn json_section_bool(raw: &str, section: &str, key: &str) -> (r: Option<bool>)
    ensures
        r == json_nested_bool(raw@, section@, key@),
{
    let value: serde_json::Value = serde_json::from_str(raw).ok()?;
    value.get(section)?.get(key)?.as_bool()
}

/// Parses `raw` with `serde_json::from_str`, then reads `section` and `key`
/// with `Value::get` and converts with `Value::as_str`. The contract claims
/// only that the text returned depends on `raw`, `section` and `key` alone.
#[verifier::external_body]
pub(crate) fn json_section_str(raw: &str, section: &str, key: &str) -> (r: Option<String>)
    ensures
        match json_nested_str(raw@, section@, key@) {
            Some(t) => r is Some && r->0@ == t,
            None => r is None,
        },
{
    let value: serde_json::Value = serde_json::from_str(raw).ok()?;
    Some(value.get(section)?.get(key)?.as_str()?.to_string())
}

} // verus!

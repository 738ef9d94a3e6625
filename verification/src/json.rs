//! Reading members of small JSON objects with `serde_json`.

use vstd::prelude::*;

verus! {

/// What `serde_json` yields for the member `key` of the JSON document
/// `text`: `serde_json::from_str::<serde_json::Value>(text)`, then
/// `Value::get(key)`, then `Value::as_u64`. `None` where the text is not
/// JSON, is not an object, lacks the member, or the member is not an
/// unsigned integer that fits in 64 bits.
pub uninterp spec fn json_member_u64(text: Seq<char>, key: Seq<char>) -> Option<u64>;

/// What `serde_json` yields for the member `key` of the JSON document
/// `text`: `serde_json::from_str::<serde_json::Value>(text)`, then
/// `Value::get(key)`, then `Value::as_str`. `None` where the text is not
/// JSON, is not an object, lacks the member, or the member is not a string.
pub uninterp spec fn json_member_str(text: Seq<char>, key: Seq<char>) -> Option<Seq<char>>;

/// Reads an unsigned integer member of a JSON object with `serde_json`
/// (`from_str`, `Value::get`, `Value::as_u64`). Trusted: the result is the
/// one [`json_member_u64`] names for the text and key.
#[verifier::external_body]
pub(crate) fn read_json_u64(text: &str, key: &str) -> (r: Option<u64>)
    ensures
        r == json_member_u64(text@, key@),
{
    serde_json::from_str::<serde_json::Value>(text).ok().and_then(|v| v.get(key).and_then(serde_json::Value::as_u64))
}

/// Reads a string member of a JSON object with `serde_json` (`from_str`,
/// `Value::get`, `Value::as_str`). Trusted: the result is the one
/// [`json_member_str`] names for the text and key.
#[verifier::external_body]
pub(crate) fn read_json_str(text: &str, key: &str) -> (r: Option<String>)
    ensures
        match r {
            Some(s) => json_member_str(text@, key@) == Some(s@),
            None => json_member_str(text@, key@) is None,
        },
{
    serde_json::from_str::<serde_json::Value>(text).ok().and_then(|v| v.get(key).and_then(serde_json::Value::as_str).map(|s| s.to_owned()))
}

} // verus!

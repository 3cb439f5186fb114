//! Reading JSON with `serde_json`. A parsed value stays opaque; what this
//! library reads in it, the text and the integers directly under its keys,
//! has a name, and the contracts below say over that name what the parser
//! and the accessors return. None of them is proved here.

use vstd::prelude::*;

verus! {

/// A parsed JSON value.
#[verifier::external_type_specification]
#[verifier::external_body]
pub struct ExJsonValue(serde_json::Value);

/// What stands under one key of a JSON object, as far as this library reads
/// it.
pub ghost enum JsonMember {
    /// A JSON string.
    Text(Seq<char>),
    /// A JSON number written without fraction or exponent that fits in 64
    /// bits, signed or unsigned.
    Integer(int),
    /// Anything else.
    Other,
}

/// The members of `value` by their keys, where it is a JSON object; the
/// empty map for any other value.
pub uninterp spec fn json_members(value: serde_json::Value) -> Map<Seq<char>, JsonMember>;

/// The members of the JSON value that `text` is the text of; `None` where
/// `text` is not the text of one JSON value.
pub uninterp spec fn json_document(text: Seq<char>) -> Option<Map<Seq<char>, JsonMember>>;

/// The text under `key`, if a JSON string stands there.
pub open spec fn text_member(members: Map<Seq<char>, JsonMember>, key: Seq<char>) -> Option<Seq<char>> {
    if members.dom().contains(key) {
        match members[key] {
            JsonMember::Text(text) => Some(text),
            _ => None,
        }
    } else {
        None
    }
}

/// The integer under `key`, if one stands there.
pub open spec fn integer_member(members: Map<Seq<char>, JsonMember>, key: Seq<char>) -> Option<int> {
    if members.dom().contains(key) {
        match members[key] {
            JsonMember::Integer(n) => Some(n),
            _ => None,
        }
    } else {
        None
    }
}

/// The integer under `key`, if one stands there and lies in `low..=high`.
pub open spec fn integer_member_within(
    members: Map<Seq<char>, JsonMember>,
    key: Seq<char>,
    low: int,
    high: int,
) -> Option<int> {
    match integer_member(members, key) {
        Some(n) => if low <= n <= high {
            Some(n)
        } else {
            None
        },
        None => None,
    }
}

/// Calls `serde_json::from_str` for a `serde_json::Value`. The contract
/// claims that the call succeeds exactly on the texts of one JSON value, and
/// that what it returns has the members that the text gives.
#[verifier::external_body]
pub(crate) fn parse_json(text: &str) -> (r: Option<serde_json::Value>)
    ensures
        match r {
            Some(value) => json_document(text@) == Some(json_members(value)),
            None => json_document(text@) is None,
        },
{
    serde_json::from_str::<serde_json::Value>(text).ok()
}

/// Calls `serde_json::Value::get` with `key` and `Value::as_str` on what it
/// finds. The contract claims that the result is the text under `key`, and
/// `None` where no JSON string stands there.
#[verifier::external_body]
pub(crate) fn json_text(value: &serde_json::Value, key: &str) -> (r: Option<String>)
    ensures
        match r {
            Some(text) => text_member(json_members(*value), key@) == Some(text@),
            None => text_member(json_members(*value), key@) is None,
        },
{
    match value.get(key) {
        Some(member) => match member.as_str() {
            Some(text) => Some(text.to_string()),
            None => None,
        },
        None => None,
    }
}

/// Calls `serde_json::Value::get` with `key` and `Value::as_i64` on what it
/// finds. The contract claims that the result is the integer under `key`
/// where it fits in an `i64`, and `None` otherwise.
#[verifier::external_body]
pub(crate) fn json_integer(value: &serde_json::Value, key: &str) -> (r: Option<i64>)
    ensures
        match r {
            Some(n) => integer_member_within(
                json_members(*value),
                key@,
                i64::MIN as int,
                i64::MAX as int,
            ) == Some(n as int),
            None => integer_member_within(
                json_members(*value),
                key@,
                i64::MIN as int,
                i64::MAX as int,
            ) is None,
        },
{
    match value.get(key) {
        Some(member) => member.as_i64(),
        None => None,
    }
}

/// Calls `serde_json::Value::get` with `key` and `Value::as_u64` on what it
/// finds. The contract claims that the result is the integer under `key`
/// where it fits in a `u64`, and `None` otherwise.
#[verifier::external_body]
pub(crate) fn json_unsigned(value: &serde_json::Value, key: &str) -> (r: Option<u64>)
    ensures
        match r {
            Some(n) => integer_member_within(json_members(*value), key@, 0, u64::MAX as int) == Some(
                n as int,
            ),
            None => integer_member_within(json_members(*value), key@, 0, u64::MAX as int) is None,
        },
{
    match value.get(key) {
        Some(member) => member.as_u64(),
        None => None,
    }
}

} // verus!

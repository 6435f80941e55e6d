//! Calls into std and outside crates whose results the library relies on.
use vstd::prelude::*;

verus! {

/// What `str::to_uppercase` returns for the characters `s`.
pub uninterp spec fn upper_of(s: Seq<char>) -> Seq<char>;

/// Relies on `str::to_uppercase`: the result depends on the characters alone.
#[verifier::external_body]
pub(crate) fn uppercase(s: &str) -> (r: String)
    ensures
        r@ == upper_of(s@),
{
    s.to_uppercase()
}

/// What serde_json gives for member `key` of the JSON text `text`: the member's
/// string, when the text is an object and the member a string.
pub uninterp spec fn json_string_member(text: Seq<char>, key: Seq<char>) -> Option<Seq<char>>;

/// Relies on `serde_json::from_str` into a `serde_json::Value`, read with
/// `Value::get` and `Value::as_str`: a deterministic decoding of the text.
#[verifier::external_body]
pub(crate) fn string_member(text: &str, key: &str) -> (r: Option<String>)
    ensures
        match r {
            Some(v) => json_string_member(text@, key@) == Some(v@),
            None => json_string_member(text@, key@) is None,
        },
{
    serde_json::from_str::<serde_json::Value>(text).ok().and_then(
        |v| v.get(key).and_then(|m| m.as_str()).map(|m| m.to_string()),
    )
}

/// Relies on `uuid::Uuid::new_v4` and its hyphenated `Display`: a random
/// identifier, written in 36 characters.
#[verifier::external_body]
pub(crate) fn new_id() -> (r: String)
    ensures
        r@.len() == 36,
{
    uuid::Uuid::new_v4().to_string()
}

/// Relies on `chrono::Utc::now` and `DateTime::timestamp_millis`: the time now,
/// in milliseconds since the epoch.
#[verifier::external_body]
pub(crate) fn now_millis() -> (r: i64) {
    chrono::Utc::now().timestamp_millis()
}

} // verus!

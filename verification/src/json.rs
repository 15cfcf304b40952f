//! The two things this library needs from a JSON implementation: quoting a
//! string, and reading a string member of an object. Both are done by
//! `serde_json`; their contracts are believed, not proved.

use vstd::prelude::*;

verus! {

/// The JSON string literal that `serde_json` writes for `text`: the text between
/// double quotes, with the characters that JSON does not take verbatim escaped.
pub uninterp spec fn json_quoted(text: Seq<char>) -> Seq<char>;

/// What `serde_json` finds under `key` when it reads `text` as one JSON value:
/// the member's text if `text` is a complete JSON document, that document is an
/// object, the object has a member `key`, and the member is a string; `None`
/// in every other case.
pub uninterp spec fn json_member(text: Seq<char>, key: Seq<char>) -> Option<Seq<char>>;

/// Calls `serde_json::to_string` on a string slice.
///
/// Believed: the result is the JSON string literal for `text`, named
/// [`json_quoted`]. Writing a string into memory has no failing path in
/// `serde_json`, so the error arm is never taken.
#[verifier::external_body]
pub(crate) fn quote(text: &str) -> (quoted: String)
    ensures
        quoted@ == json_quoted(text@),
{
    serde_json::to_string(text).unwrap_or_default()
}

/// Calls `serde_json::from_str` for a `serde_json::Value`, then `Value::get`
/// and `Value::as_str`.
///
/// Believed: the result is the string member named [`json_member`], which
/// depends on the two arguments alone.
#[verifier::external_body]
pub(crate) fn string_member(text: &str, key: &str) -> (found: Option<String>)
    ensures
        found matches Some(s) ==> json_member(text@, key@) == Some(s@),
        found is None ==> json_member(text@, key@) is None,
{
    let value: serde_json::Value = serde_json::from_str(text).ok()?;
    value.get(key)?.as_str().map(str::to_owned)
}

} // verus!

//! The JSON codec that the library leans on: parsing of documents and
//! quoting of strings are `serde_json`'s. The calls into it are taken on
//! trust, and each says what is claimed of it; everything that follows
//! from those claims is proved where it is used.

use vstd::prelude::*;

verus! {

/// A parsed JSON document (`serde_json::Value`), opaque to the verifier.
#[verifier::external_type_specification]
#[verifier::external_body]
pub struct ExJsonValue(serde_json::Value);

/// A failure reported by the codec (`serde_json::Error`).
#[verifier::external_type_specification]
#[verifier::external_body]
pub struct ExJsonError(serde_json::Error);

/// `Clone` for `serde_json::Value`: a document can be copied. Nothing is
/// claimed of the copy.
pub assume_specification[ <serde_json::Value as Clone>::clone ](doc: &serde_json::Value) -> (copy:
    serde_json::Value)
;

/// The members of a document that hold a string, by key: for a JSON
/// object, each key whose value is a string, with that string; for any
/// other document, nothing.
pub uninterp spec fn string_members(doc: serde_json::Value) -> Map<Seq<char>, Seq<char>>;

/// The string members of the document that `text` parses to; `None` where
/// `text` is not one JSON document.
pub uninterp spec fn parsed_string_members(text: Seq<char>) -> Option<Map<Seq<char>, Seq<char>>>;

/// What the codec makes of `s` as a JSON string: the literal, which is
/// `s` between double quotes, escaped as the codec escapes it; `None`
/// where the codec reports a failure instead.
pub uninterp spec fn json_literal(s: Seq<char>) -> Option<Seq<char>>;

/// `serde_json::from_str` at `serde_json::Value`: parses `text` as one
/// JSON document. Whether it succeeds and what the document holds depend
/// on `text` alone.
#[verifier::external_body]
pub(crate) fn parse_document(text: &str) -> (r: Result<serde_json::Value, serde_json::Error>)
    ensures
        match r {
            Ok(doc) => parsed_string_members(text@) == Some(string_members(doc)),
            Err(_) => parsed_string_members(text@) is None,
        },
{
    serde_json::from_str(text)
}

/// `serde_json::Value::get` with a string key: the member `key` of an
/// object, handed out as a plain string where it holds one. `None` where
/// the document is no object, has no such member, or the member holds
/// anything but a string.
#[verifier::external_body]
pub(crate) fn string_member(doc: &serde_json::Value, key: &str) -> (r: Option<String>)
    ensures
        match r {
            Some(s) => string_members(*doc).contains_key(key@) && string_members(*doc)[key@]
                == s@,
            None => !string_members(*doc).contains_key(key@),
        },
{
    match doc.get(key) {
        Some(serde_json::Value::String(s)) => Some(s.clone()),
        _ => None,
    }
}

/// `serde_json::to_string` at `str`: the JSON string literal for `s`.
/// Whether it succeeds and what the literal is depend on `s` alone.
/// Nothing is claimed of when it succeeds.
#[verifier::external_body]
pub(crate) fn quote(s: &str) -> (r: Result<String, serde_json::Error>)
    ensures
        match r {
            Ok(t) => json_literal(s@) == Some(t@),
            Err(_) => json_literal(s@) is None,
        },
{
    serde_json::to_string(s)
}

/// What the codec makes of `s` as a JSON string: the literal where the
/// codec gives one, and `None` exactly where the codec reports a failure.
/// The failure itself is dropped.
pub fn quoted(s: &str) -> (r: Option<String>)
    ensures
        r.deep_view() == json_literal(s@),
{
    match quote(s) {
        Ok(t) => Some(t),
        Err(_) => None,
    }
}

} // verus!

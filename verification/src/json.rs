//! The JSON documents that the service reads and writes, through `serde_json`.
//!
//! Nothing here is proved: each function states what the crate it calls does.

use vstd::prelude::*;

verus! {

/// A JSON document of `serde_json`, opaque to the verifier.
#[verifier::external_type_specification]
#[verifier::external_body]
pub struct ExValue(serde_json::Value);

/// The error of `serde_json`, opaque to the verifier.
#[verifier::external_type_specification]
#[verifier::external_body]
pub struct ExJsonError(serde_json::Error);

/// The members of a JSON document whose value is a string, by name. Empty
/// where the document is not an object.
pub uninterp spec fn string_members(doc: serde_json::Value) -> Map<Seq<char>, Seq<char>>;

/// The members of a JSON document whose value is an integer from 0 to the
/// largest `u64`, by name. Empty where the document is not an object.
pub uninterp spec fn count_members(doc: serde_json::Value) -> Map<Seq<char>, u64>;

/// What `serde_json::from_str` makes of a text: `None` where the text is not
/// one JSON document, else the string members and the count members of that
/// document.
pub uninterp spec fn json_members(text: Seq<char>) -> Option<
    (Map<Seq<char>, Seq<char>>, Map<Seq<char>, u64>),
>;

/// The map that holds `value` under `name` and nothing else.
pub open spec fn only<V>(name: Seq<char>, value: V) -> Map<Seq<char>, V> {
    Map::<Seq<char>, V>::empty().insert(name, value)
}

/// Calls `serde_json::from_str` for a `serde_json::Value`. Trusted: it
/// succeeds exactly on the texts that are one JSON document, and the document
/// it returns depends on the text alone.
#[verifier::external_body]
pub(crate) fn parse_document(text: &str) -> (r: Result<serde_json::Value, serde_json::Error>)
    ensures
        match r {
            Ok(doc) => json_members(text@) == Some((string_members(doc), count_members(doc))),
            Err(_) => json_members(text@) is None,
        },
{
    serde_json::from_str::<serde_json::Value>(text)
}

/// Indexes a `serde_json::Value` by a member's name and calls `Value::as_str`
/// on what stands there. Trusted: indexing gives null where the document is
/// not an object or has no such member, and `as_str` gives a string's text and
/// nothing for any other value.
#[verifier::external_body]
pub(crate) fn string_member(doc: &serde_json::Value, name: &str) -> (r: Option<String>)
    ensures
        match r {
            Some(text) => string_members(*doc).contains_key(name@) && string_members(*doc)[name@]
                == text@,
            None => !string_members(*doc).contains_key(name@),
        },
{
    match doc[name].as_str() {
        Some(text) => Some(text.to_string()),
        None => None,
    }
}

/// Indexes a `serde_json::Value` by a member's name and calls `Value::as_u64`
/// on what stands there. Trusted: `as_u64` gives the number where the value is
/// an integer that a `u64` holds, and nothing for any other value.
#[verifier::external_body]
pub(crate) fn count_member(doc: &serde_json::Value, name: &str) -> (r: Option<u64>)
    ensures
        match r {
            Some(count) => count_members(*doc).contains_key(name@) && count_members(*doc)[name@]
                == count,
            None => !count_members(*doc).contains_key(name@),
        },
{
    doc[name].as_u64()
}

/// Fills a `serde_json::Map` with one string member and one count member,
/// through `Map::insert`, and writes it out with `Value::to_string`. Trusted:
/// the text written is a JSON document that `serde_json::from_str` reads back
/// with exactly these two members.
#[verifier::external_body]
pub(crate) fn write_document(text_name: &str, text: &str, count_name: &str, count: u64) -> (r:
    String)
    requires
        text_name@ != count_name@,
    ensures
        json_members(r@) == Some((only(text_name@, text@), only(count_name@, count))),
{
    let mut members = serde_json::Map::new();
    members.insert(text_name.to_string(), serde_json::Value::from(text));
    members.insert(count_name.to_string(), serde_json::Value::from(count));
    serde_json::Value::Object(members).to_string()
}

} // verus!

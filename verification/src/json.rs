//! Reading members out of a JSON document.

use vstd::prelude::*;

verus! {

#[verifier::external_type_specification]
#[verifier::external_body]
pub struct ExJsonValue(serde_json::Value);

/// The document that `serde_json::from_str` reads from `text`, or `None`
/// where the text is no JSON document.
pub uninterp spec fn json_parsed(text: Seq<char>) -> Option<serde_json::Value>;

/// What the index operator of `serde_json::Value` gives for `key`: the
/// member of that name, or the null value where there is none.
pub uninterp spec fn json_member_of(doc: serde_json::Value, key: Seq<char>) -> serde_json::Value;

/// What `serde_json::Value::as_str` gives: the string that a value holds,
/// or `None` where it is no string.
pub uninterp spec fn json_text_of(doc: serde_json::Value) -> Option<Seq<char>>;

/// What `serde_json::Value::as_u64` gives: the number that a value holds,
/// or `None` where it is no integer in the range of `u64`.
pub uninterp spec fn json_u64_of(doc: serde_json::Value) -> Option<u64>;

/// The string member `key` of a document.
pub open spec fn member_text(doc: serde_json::Value, key: Seq<char>) -> Option<Seq<char>> {
    json_text_of(json_member_of(doc, key))
}

/// Parses a text with `serde_json::from_str` into a document. `None` stands
/// for the error that a malformed text gives. The document depends on the
/// text alone; it is named, not described.
#[verifier::external_body]
pub(crate) fn parse_json(text: &str) -> (r: Option<serde_json::Value>)
    ensures
        r == json_parsed(text@),
{
    serde_json::from_str(text).ok()
}

/// Takes a copy of the member `key` with the index operator of
/// `serde_json::Value`, which gives the null value where `doc` is no object
/// or has no such member.
#[verifier::external_body]
pub(crate) fn json_member(doc: &serde_json::Value, key: &str) -> (r: serde_json::Value)
    ensures
        r == json_member_of(*doc, key@),
{
    doc[key].clone()
}

/// The string that a value holds, by `serde_json::Value::as_str`: `None`
/// where the value is no string.
#[verifier::external_body]
pub(crate) fn json_text(doc: &serde_json::Value) -> (r: Option<String>)
    ensures
        match r {
            Some(s) => json_text_of(*doc) == Some(s@),
            None => json_text_of(*doc) is None,
        },
{
    doc.as_str().map(str::to_owned)
}

/// The number that a value holds, by `serde_json::Value::as_u64`: `None`
/// where the value is no integer in the range of `u64`.
#[verifier::external_body]
pub(crate) fn json_u64(doc: &serde_json::Value) -> (r: Option<u64>)
    ensures
        r == json_u64_of(*doc),
{
    doc.as_u64()
}

} // verus!

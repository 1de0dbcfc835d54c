//! The JSON documents of the settings store, as far as the settings need them:
//! an object whose members are looked up by key and read as a string or as a
//! boolean.
//!
//! Documents are values of `serde_json`. What they hold is opaque here; the
//! functions of this module are believed to do what the documentation and the
//! source of `serde_json` say.

use vstd::prelude::*;

verus! {

/// Trusted: declares `serde_json::Value`, a JSON value of any kind, as a type
/// whose inside is not looked at.
#[verifier::external_type_specification]
#[verifier::external_body]
pub struct ExValue(serde_json::Value);

/// What a member of a JSON object holds, as far as the settings tell values
/// apart: a string, a boolean, or something else.
pub enum JsonMember {
    Text(Seq<char>),
    Flag(bool),
    Other,
}

/// Whether the document is a JSON object, the variant `Value::Object`.
pub uninterp spec fn json_is_object(document: serde_json::Value) -> bool;

/// The members of the JSON object `document`, by key: a member that is the
/// variant `Value::String` or `Value::Bool` with what it holds, a member of
/// any other variant as `Other`. A document that is no object has none.
pub uninterp spec fn json_members(document: serde_json::Value) -> Map<Seq<char>, JsonMember>;

/// The string that `members` hold under `key`, if they hold one.
pub open spec fn member_text(members: Map<Seq<char>, JsonMember>, key: Seq<char>) -> Option<
    Seq<char>,
> {
    if members.contains_key(key) {
        match members[key] {
            JsonMember::Text(text) => Some(text),
            _ => None,
        }
    } else {
        None
    }
}

/// The boolean that `members` hold under `key`, if they hold one.
pub open spec fn member_flag(members: Map<Seq<char>, JsonMember>, key: Seq<char>) -> Option<bool> {
    if members.contains_key(key) {
        match members[key] {
            JsonMember::Flag(flag) => Some(flag),
            _ => None,
        }
    } else {
        None
    }
}

/// Reads the member `key` of `document` as a string.
///
/// Trusted: `serde_json::Value::get` returns the member of an object with the
/// given key, and nothing for a missing key or a document that is no object;
/// the member counts only if it is the variant `Value::String`. The result is
/// `None` in every other case.
#[verifier::external_body]
pub(crate) fn text_member(document: &serde_json::Value, key: &str) -> (r: Option<String>)
    ensures
        r is Some <==> member_text(json_members(*document), key@) is Some,
        r matches Some(text) ==> member_text(json_members(*document), key@) == Some(text@),
{
    match document.get(key) {
        Some(serde_json::Value::String(text)) => Some(text.clone()),
        _ => None,
    }
}

/// Reads the member `key` of `document` as a boolean.
///
/// Trusted: as for [`text_member`], with the variant `Value::Bool`.
#[verifier::external_body]
pub(crate) fn flag_member(document: &serde_json::Value, key: &str) -> (r: Option<bool>)
    ensures
        r == member_flag(json_members(*document), key@),
{
    match document.get(key) {
        Some(serde_json::Value::Bool(flag)) => Some(*flag),
        _ => None,
    }
}

/// A JSON object without members.
///
/// Trusted: `serde_json::Map::new` makes an empty map, and `Value::Object`
/// holds it as it is.
#[verifier::external_body]
pub(crate) fn empty_document() -> (document: serde_json::Value)
    ensures
        json_is_object(document),
        (json_members(document) == Map::<Seq<char>, JsonMember>::empty()),
{
    serde_json::Value::Object(serde_json::Map::new())
}

/// Binds `key` to the string `text` in the JSON object `document`.
///
/// Trusted: indexing a `serde_json::Value` that is an object with a string
/// key, for writing, gives the place of that member, inserted if it was
/// missing; the assignment replaces whatever the member held. Other members
/// are not touched. On a value that is neither an object nor null the
/// indexing panics, which `requires` rules out.
#[verifier::external_body]
pub(crate) fn set_text(document: &mut serde_json::Value, key: &str, text: &str)
    requires
        json_is_object(*old(document)),
    ensures
        json_is_object(*final(document)),
        json_members(*final(document)) == json_members(*old(document)).insert(
            key@,
            JsonMember::Text(text@),
        ),
{
    document[key] = serde_json::Value::String(text.to_owned());
}

/// Binds `key` to the boolean `flag` in the JSON object `document`.
///
/// Trusted: as for [`set_text`], with the variant `Value::Bool`.
#[verifier::external_body]
pub(crate) fn set_flag(document: &mut serde_json::Value, key: &str, flag: bool)
    requires
        json_is_object(*old(document)),
    ensures
        json_is_object(*final(document)),
        json_members(*final(document)) == json_members(*old(document)).insert(
            key@,
            JsonMember::Flag(flag),
        ),
{
    document[key] = serde_json::Value::Bool(flag);
}

} // verus!

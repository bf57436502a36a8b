//! Reading members of a JSON document with `serde_json`.
//!
//! The save's JSON is parsed by `serde_json` into its `Value` tree; what the
//! functions here return is trusted to be what that tree holds, and is named
//! rather than stated.
use vstd::prelude::*;

use serde_json::Value;

verus! {

/// Whether `json` parses as a JSON document with a member `section` at its top level.
pub uninterp spec fn json_section_present(json: Seq<char>, section: Seq<char>) -> bool;

/// The boolean that `serde_json` finds at `section`.`key` in the document
/// `json`; `None` when the document does not parse, either member is missing,
/// or the value is not a boolean.
pub uninterp spec fn json_member_bool(json: Seq<char>, section: Seq<char>, key: Seq<char>) -> Option<bool>;

/// The integer that `serde_json` finds at `section`.`key` in the document
/// `json`; `None` when the document does not parse, either member is missing,
/// or the value is not a number that `as_i64` accepts (an integer within `i64`).
pub uninterp spec fn json_member_i64(json: Seq<char>, section: Seq<char>, key: Seq<char>) -> Option<i64>;

/// `serde_json::from_str::<Value>(json)` followed by `.get(section).is_some()`,
/// a parse error giving `false`.
///
/// Trusted: the result is the named presence of the member.
#[verifier::external_body]
pub fn section_present(json: &str, section: &str) -> (present: bool)
    ensures
        present == json_section_present(json@, section@),
{
    match serde_json::from_str::<Value>(json) {
        Ok(root) => root.get(section).is_some(),
        Err(_) => false,
    }
}

/// `serde_json::from_str::<Value>(json)`, then `.get(section)`, `.get(key)` and
/// `.as_bool()`, any failure giving `None`.
///
/// Trusted: the result is the named boolean member.
#[verifier::external_body]
pub fn member_bool(json: &str, section: &str, key: &str) -> (value: Option<bool>)
    ensures
        value == json_member_bool(json@, section@, key@),
{
    match serde_json::from_str::<Value>(json) {
        Ok(root) => root.get(section)?.get(key)?.as_bool(),
        Err(_) => None,
    }
}

/// `serde_json::from_str::<Value>(json)`, then `.get(section)`, `.get(key)` and
/// `.as_i64()`, any failure giving `None`.
///
/// Trusted: the result is the named integer member.
#[verifier::external_body]
pub fn member_i64(json: &str, section: &str, key: &str) -> (value: Option<i64>)
    ensures
        value == json_member_i64(json@, section@, key@),
{
    match serde_json::from_str::<Value>(json) {
        Ok(root) => root.get(section)?.get(key)?.as_i64(),
        Err(_) => None,
    }
}

/// `serde_json::Error`, carried through without Verus reading inside it.
#[verifier::external_type_specification]
#[verifier::external_body]
pub struct ExJsonError(serde_json::Error);

/// `serde_json::Value`, a parsed JSON document. Verus does not read inside it;
/// what it holds is named by the text `serde_json` writes for it.
#[verifier::external_type_specification]
#[verifier::external_body]
pub struct ExJsonValue(Value);

/// The compact JSON text that `serde_json` writes for the document `v`
/// (`Value`'s `to_string`): what the document holds, as text.
pub uninterp spec fn json_value_text(v: Value) -> Seq<char>;

/// Whether `serde_json` parses `json` as a JSON document.
pub uninterp spec fn json_parses(json: Seq<char>) -> bool;

/// The message (`to_string` of the error) that `serde_json` gives where it
/// fails to parse `json` as a JSON document.
pub uninterp spec fn json_parse_message(json: Seq<char>) -> Seq<char>;

/// The compact text that `serde_json` writes back for the document it parses from `json`.
pub uninterp spec fn json_normal_text(json: Seq<char>) -> Seq<char>;

/// The compact text that `serde_json` writes for the member `section` of the
/// top-level object of the document `json`.
pub uninterp spec fn json_section_text(json: Seq<char>, section: Seq<char>) -> Seq<char>;

/// Whether the document written as `doc` has a top-level member `section`
/// that is a JSON object.
pub uninterp spec fn json_section_is_object(doc: Seq<char>, section: Seq<char>) -> bool;

/// The compact text of the document written as `doc` after inserting (or
/// replacing) member `field` of its object member `section` with the document
/// written as `value`.
pub uninterp spec fn json_with_member(doc: Seq<char>, section: Seq<char>, field: Seq<char>, value: Seq<char>) -> Seq<char>;

/// `serde_json::from_str::<Value>(json)`.
///
/// Trusted: parsing fails exactly where the named parse fails, and the
/// document's text is the named normal text of `json`.
#[verifier::external_body]
pub fn parse_value(json: &str) -> (doc: Result<Value, serde_json::Error>)
    ensures
        (doc is Ok) == json_parses(json@),
        doc matches Ok(v) ==> json_value_text(v) == json_normal_text(json@),
{
    serde_json::from_str(json)
}

/// `serde_json::from_str::<Value>(json)`, then `.get(section).cloned()`.
///
/// Trusted: parsing fails exactly where the named parse fails, the member is
/// found exactly where the named presence holds, and its text is the named
/// member text.
#[verifier::external_body]
pub fn section_value(json: &str, section: &str) -> (member: Result<Option<Value>, serde_json::Error>)
    ensures
        (member is Ok) == json_parses(json@),
        member matches Ok(m) ==> (m is Some) == json_section_present(json@, section@),
        member matches Ok(Some(v)) ==> json_value_text(v) == json_section_text(json@, section@),
{
    let root: Value = serde_json::from_str(json)?;
    Ok(root.get(section).cloned())
}

/// `root.get(section)` followed by `Value::is_object`, a missing member giving `false`.
///
/// Trusted: the result is the named test on the document's text.
#[verifier::external_body]
pub fn section_is_object(root: &Value, section: &str) -> (object: bool)
    ensures
        object == json_section_is_object(json_value_text(*root), section@),
{
    root.get(section).is_some_and(Value::is_object)
}

/// `root.get_mut(section)`, `as_object_mut()` and `insert(field, value)`;
/// `requires` makes sure that the member is an object, where `expect` cannot panic.
///
/// Trusted: the document afterwards is the named document with the member set.
#[verifier::external_body]
pub fn insert_member(root: &mut Value, section: &str, field: &str, value: Value)
    requires
        json_section_is_object(json_value_text(*old(root)), section@),
    ensures
        json_value_text(*final(root)) == json_with_member(
            json_value_text(*old(root)),
            section@,
            field@,
            json_value_text(value),
        ),
{
    root.get_mut(section)
        .and_then(Value::as_object_mut)
        .expect("the member is an object")
        .insert(field.to_string(), value);
}

/// `Value::to_string`: the compact JSON text of `doc` (writing a `Value` does not fail).
///
/// Trusted: the result is the document's named text.
#[verifier::external_body]
pub fn value_text(doc: &Value) -> (text: String)
    ensures
        text@ == json_value_text(*doc),
{
    doc.to_string()
}

/// `serde_json::from_str::<Value>(json)`, with the error's `to_string` where
/// it fails and `None` where it succeeds.
///
/// Trusted: there is a message exactly where the named parse fails, and it is
/// the named message.
#[verifier::external_body]
pub fn parse_error_message(json: &str) -> (message: Option<String>)
    ensures
        (message is Some) == !json_parses(json@),
        message matches Some(m) ==> m@ == json_parse_message(json@),
{
    serde_json::from_str::<Value>(json).err().map(|e| e.to_string())
}

} // verus!

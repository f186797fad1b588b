//! JSON documents as `serde_json` reads them.
//!
//! Parsing and member lookup are left to `serde_json`. This module gives
//! each of the three calls a name for its result, so that the contracts of
//! the command decoder can say which lookups a command is made of.

use serde_json::Value;
use vstd::prelude::*;

verus! {

/// `serde_json::Value`, a JSON document or a part of one. Nothing of its
/// inside is visible to the verifier.
#[verifier::external_type_specification]
#[verifier::external_body]
pub struct ExValue(serde_json::Value);

/// `serde_json::Error`, carried from the parser to the caller that maps it.
#[verifier::external_type_specification]
#[verifier::external_body]
pub struct ExJsonError(serde_json::Error);

/// The document that `serde_json::from_str` reads from `text`, or `None`
/// where it refuses the text.
pub uninterp spec fn json_document(text: Seq<char>) -> Option<Value>;

/// What `Value::get` finds in `value` under the string index `key`: the
/// member of that name if `value` is an object that has one, else `None`.
pub uninterp spec fn json_member(value: Value, key: Seq<char>) -> Option<Value>;

/// What `Value::as_bool` reads from `value`: the boolean if `value` is one,
/// else `None`.
pub uninterp spec fn json_bool(value: Value) -> Option<bool>;

/// Parses `text` with `serde_json::from_str::<Value>`.
///
/// Trusted: the result is `Ok` with the document named `json_document(text)`
/// exactly where that is `Some`. The claim behind the name is that parsing
/// depends on the text alone.
#[verifier::external_body]
pub(crate) fn parse_document(text: &str) -> (r: Result<Value, serde_json::Error>)
    ensures
        r matches Ok(document) ==> json_document(text@) == Some(document),
        r is Err ==> json_document(text@) is None,
{
    serde_json::from_str(text)
}

/// Looks `key` up in `value` with `Value::get`.
///
/// Trusted: the result is the member named `json_member(value, key)`. With
/// a string index, `get` returns `None` for anything but an object and for
/// an object without that key; it borrows from `value` and does not panic.
#[verifier::external_body]
pub(crate) fn member<'a>(value: &'a Value, key: &str) -> (r: Option<&'a Value>)
    ensures
        r matches Some(found) ==> json_member(*value, key@) == Some(*found),
        r is None ==> json_member(*value, key@) is None,
{
    value.get(key)
}

/// `Value::as_bool`, which returns the boolean inside a `Value::Bool` and
/// `None` for every other kind of value.
pub assume_specification[ Value::as_bool ](value: &Value) -> (r: Option<bool>)
    ensures
        r == json_bool(*value),
;

} // verus!

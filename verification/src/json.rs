//! The untyped payload of a protocol message: a `serde_json::Value`, read
//! through three accessors whose contracts are stated over what the value
//! holds.

use serde_json::Value;
use vstd::prelude::*;

verus! {

/// Trusted: `serde_json::Value`, a JSON value. Verified code sees nothing
/// inside one and reads it through the accessors below.
#[verifier::external_type_specification]
#[verifier::external_body]
pub struct ExValue(serde_json::Value);

/// The members of a JSON object by key; `None` for a value that is no object.
pub uninterp spec fn json_object(value: Value) -> Option<Map<Seq<char>, Value>>;

/// The elements of a JSON array in order; `None` for a value that is no array.
pub uninterp spec fn json_array(value: Value) -> Option<Seq<Value>>;

/// The characters of a JSON string; `None` for a value that is no string.
pub uninterp spec fn json_string(value: Value) -> Option<Seq<char>>;

/// The member of `value` under `key`, if `value` is an object that has one.
pub open spec fn member_of(value: Value, key: Seq<char>) -> Option<Value> {
    match json_object(value) {
        Some(members) => if members.contains_key(key) {
            Some(members[key])
        } else {
            None
        },
        None => None,
    }
}

/// The member of `value` under `key`, if there is one and it is a string.
pub open spec fn text_member_of(value: Value, key: Seq<char>) -> Option<Seq<char>> {
    match member_of(value, key) {
        Some(member) => json_string(member),
        None => None,
    }
}

/// Trusted: `serde_json::Value::get` with a string index. It looks the key up
/// when the value is an object and returns `None` for every other value and
/// for a key that the object lacks.
#[verifier::external_body]
pub(crate) fn member<'a>(value: &'a Value, key: &str) -> (found: Option<&'a Value>)
    ensures
        match json_object(*value) {
            Some(members) => match found {
                Some(member) => members.contains_key(key@) && members[key@] == *member,
                None => !members.contains_key(key@),
            },
            None => found is None,
        },
{
    value.get(key)
}

/// Trusted: `serde_json::Value::as_str`. It returns the text of a string value
/// and `None` for every other value.
#[verifier::external_body]
pub(crate) fn as_text<'a>(value: &'a Value) -> (text: Option<&'a str>)
    ensures
        match text {
            Some(chars) => json_string(*value) == Some(chars@),
            None => json_string(*value) is None,
        },
{
    value.as_str()
}

/// Trusted: `serde_json::Value::as_array`. It returns the elements of an array
/// value and `None` for every other value.
#[verifier::external_body]
pub(crate) fn as_items<'a>(value: &'a Value) -> (items: Option<&'a Vec<Value>>)
    ensures
        match items {
            Some(elements) => json_array(*value) == Some(elements@),
            None => json_array(*value) is None,
        },
{
    value.as_array()
}

/// The string member of `value` under `key`, owned.
pub fn text_member(value: &Value, key: &str) -> (text: Option<String>)
    ensures
        match text {
            Some(chars) => text_member_of(*value, key@) == Some(chars@),
            None => text_member_of(*value, key@) is None,
        },
{
    match member(value, key) {
        Some(found) => match as_text(found) {
            Some(chars) => Some(chars.to_owned()),
            None => None,
        },
        None => None,
    }
}

} // verus!

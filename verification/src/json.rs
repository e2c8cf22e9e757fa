//! JSON documents of `serde_json`, and the few things this crate asks of them.
//!
//! A `serde_json::Value` is carried through as it is. What the crate knows of
//! one is said by three spec functions: the member under a key, the elements
//! of an array, and the text of a string.
use vstd::prelude::*;

verus! {

/// JSON values of `serde_json`.
#[verifier::external_type_specification]
#[verifier::external_body]
pub struct ExJsonValue(serde_json::Value);

/// The member that a JSON object holds under a key; `None` for a value that
/// is no object, and for an object without that key.
pub uninterp spec fn json_member(value: serde_json::Value, key: Seq<char>) -> Option<serde_json::Value>;

/// The elements of a JSON array, in order; `None` for a value that is no array.
pub uninterp spec fn json_elements(value: serde_json::Value) -> Option<Seq<serde_json::Value>>;

/// The text of a JSON string; `None` for a value that is no string.
pub uninterp spec fn json_text(value: serde_json::Value) -> Option<Seq<char>>;

/// No two members of the list have the same name.
pub open spec fn names_differ(entries: Seq<(String, serde_json::Value)>) -> bool {
    forall|i: int, j: int| 0 <= i < j < entries.len() ==> (#[trigger] entries[i]).0@ != (#[trigger] entries[j]).0@
}

/// The value that a list of named members gives a key: that of the member
/// with that name.
pub open spec fn member_of_entries(entries: Seq<(String, serde_json::Value)>, key: Seq<char>) -> Option<serde_json::Value>
    decreases entries.len(),
{
    if entries.len() == 0 {
        None
    } else if entries.last().0@ == key {
        Some(entries.last().1)
    } else {
        member_of_entries(entries.drop_last(), key)
    }
}

/// `serde_json::Value::get` with a string key: the member of an object under
/// that key, and `None` for any other value or a missing key.
#[verifier::external_body]
pub(crate) fn member<'a>(value: &'a serde_json::Value, key: &str) -> (found: Option<&'a serde_json::Value>)
    ensures
        match found {
            Some(inner) => json_member(*value, key@) == Some(*inner),
            None => json_member(*value, key@) is None,
        },
{
    value.get(key)
}

/// `serde_json::Value::as_array`: the elements of an array, and `None` for
/// any other value.
#[verifier::external_body]
pub(crate) fn elements<'a>(value: &'a serde_json::Value) -> (found: Option<&'a Vec<serde_json::Value>>)
    ensures
        match found {
            Some(items) => json_elements(*value) == Some(items@),
            None => json_elements(*value) is None,
        },
{
    value.as_array()
}

/// `serde_json::Value::as_str`: the text of a string, and `None` for any
/// other value.
#[verifier::external_body]
pub(crate) fn text<'a>(value: &'a serde_json::Value) -> (found: Option<&'a str>)
    ensures
        match found {
            Some(characters) => json_text(*value) == Some(characters@),
            None => json_text(*value) is None,
        },
{
    value.as_str()
}

/// `Clone::clone` of `serde_json::Value`: a copy that holds the same document.
#[verifier::external_body]
pub(crate) fn copy_of(value: &serde_json::Value) -> (copy: serde_json::Value)
    ensures
        copy == *value,
{
    value.clone()
}

/// `serde_json::Value::Array`: the array that holds the given elements, in
/// their order.
#[verifier::external_body]
pub(crate) fn array_of(items: Vec<serde_json::Value>) -> (array: serde_json::Value)
    ensures
        json_elements(array) == Some(items@),
{
    serde_json::Value::Array(items)
}

/// `FromIterator<(String, Value)>` of `serde_json::Value`: the object made of
/// the given members, and of no other. The names must differ, so that no
/// member stands in for another.
#[verifier::external_body]
pub(crate) fn object_of(entries: Vec<(String, serde_json::Value)>) -> (object: serde_json::Value)
    requires
        names_differ(entries@),
    ensures
        forall|key: Seq<char>| #[trigger] json_member(object, key) == member_of_entries(entries@, key),
{
    entries.into_iter().collect()
}

} // verus!

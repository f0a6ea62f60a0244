//! The JSON values that the client carries, and the calls into `serde_json`
//! that it relies on.
//!
//! A `serde_json::Value` is kept as it is: the client stores it, copies it and
//! hands it out, and looks inside only to find the items of a reply. Every
//! item of this module that is marked `external_body`, every
//! `assume_specification` and every function without a body is believed, not
//! proved.

use vstd::prelude::*;

use serde_json::Value;

verus! {

/// `serde_json::Value`, carried through as an opaque value.
#[verifier::external_type_specification]
#[verifier::external_body]
pub struct ExValue(serde_json::Value);

/// `serde_json::Map`, the object that maps member names to values.
#[verifier::external_type_specification]
#[verifier::external_body]
#[verifier::reject_recursive_types(K)]
#[verifier::reject_recursive_types(V)]
pub struct ExObject<K, V>(serde_json::Map<K, V>);

/// The value that `serde_json::from_str` reads from a text, `None` where it
/// reports an error.
pub uninterp spec fn parsed_json(text: Seq<char>) -> Option<serde_json::Value>;

/// The members of a value that is an object, `None` for any other value.
pub uninterp spec fn object_fields(value: serde_json::Value) -> Option<
    Map<Seq<char>, serde_json::Value>,
>;

/// The elements of a value that is an array, `None` for any other value.
pub uninterp spec fn array_items(value: serde_json::Value) -> Option<Seq<serde_json::Value>>;

/// The string value that holds the given text.
pub uninterp spec fn text_value(text: Seq<char>) -> serde_json::Value;

/// The boolean value that holds the given flag.
pub uninterp spec fn flag_value(flag: bool) -> serde_json::Value;

/// The entries that an object holds, by member name.
pub uninterp spec fn object_entries(object: serde_json::Map<String, serde_json::Value>) -> Map<
    Seq<char>,
    serde_json::Value,
>;

/// The compact JSON text that `serde_json::to_string` writes for an object
/// with the given entries.
pub uninterp spec fn object_text(entries: Map<Seq<char>, serde_json::Value>) -> Seq<char>;

/// `Clone::clone` of `serde_json::Value` makes a deep copy: the copy is the
/// same JSON value.
pub assume_specification[ <serde_json::Value as Clone>::clone ](value: &serde_json::Value) -> (copy:
    serde_json::Value)
    ensures
        copy == *value,
;

/// `serde_json::from_str` at type `Value`: the text is read as one JSON
/// document. What comes back depends on the text alone; an error is reported
/// as `None`.
#[verifier::external_body]
pub(crate) fn parse_json(text: &str) -> (parsed: Option<Value>)
    ensures
        parsed == parsed_json(text@),
{
    match serde_json::from_str::<Value>(text) {
        Ok(value) => Some(value),
        Err(_) => None,
    }
}

/// The member of a given name: the value under that name where the value is
/// an object that has one, nothing for every other value and name.
pub open spec fn member_of(value: serde_json::Value, name: Seq<char>) -> Option<serde_json::Value> {
    match object_fields(value) {
        Some(fields) => if fields.contains_key(name) {
            Some(fields[name])
        } else {
            None
        },
        None => None,
    }
}

/// `Value::get` with a string index: the member of that name where the value
/// is an object that has one, `None` for every other value and name.
#[verifier::external_body]
pub(crate) fn member<'a>(value: &'a Value, name: &str) -> (found: Option<&'a Value>)
    ensures
        found is Some == (object_fields(*value) matches Some(fields) && fields.contains_key(name@)),
        found matches Some(inner) ==> object_fields(*value)->0[name@] == *inner,
{
    value.get(name)
}

/// `Value::as_array`: the elements where the value is an array, `None` for
/// every other value.
#[verifier::external_body]
pub(crate) fn elements<'a>(value: &'a Value) -> (found: Option<&'a Vec<Value>>)
    ensures
        found is Some == array_items(*value) is Some,
        found matches Some(items) ==> array_items(*value) == Some(items@),
{
    value.as_array()
}

/// `Value::from` at `String`: the string value that holds the text.
#[verifier::external_body]
pub(crate) fn text(content: String) -> (value: Value)
    ensures
        value == text_value(content@),
{
    Value::from(content)
}

/// `Value::from` at `bool`: the boolean value that holds the flag.
#[verifier::external_body]
pub(crate) fn flag(content: bool) -> (value: Value)
    ensures
        value == flag_value(content),
{
    Value::from(content)
}

/// `serde_json::Map::new`: an object without entries.
#[verifier::external_body]
pub(crate) fn new_object() -> (made: serde_json::Map<String, Value>)
    ensures
        object_entries(made) == (Map::<Seq<char>, Value>::empty()),
{
    serde_json::Map::new()
}

/// `serde_json::Map::insert`: the entry of that name is set to the value,
/// whether or not the object had one; the other entries stay.
#[verifier::external_body]
pub(crate) fn set_entry(object: &mut serde_json::Map<String, Value>, name: String, value: Value)
    ensures
        object_entries(*final(object)) == object_entries(*old(object)).insert(name@, value),
{
    object.insert(name, value);
}

/// `serde_json::to_string` at `serde_json::Map`: the compact JSON text of the
/// object. The text depends on the entries alone: built without its
/// `preserve_order` feature, as it is here, `serde_json` keeps the entries
/// of an object ordered by name. Writing string names and JSON values into
/// memory has no failing step.
#[verifier::external_body]
pub(crate) fn object_to_text(object: &serde_json::Map<String, Value>) -> (written: String)
    ensures
        written@ == object_text(object_entries(*object)),
{
    match serde_json::to_string(object) {
        Ok(written) => written,
        Err(_) => String::new(),
    }
}

} // verus!

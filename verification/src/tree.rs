//! Reading a JSON tree the lenient way: a member that is not there, and a
//! value of another kind than the one asked for, is simply nothing.

use vstd::prelude::*;
use vstd::string::*;
use crate::json::{find_member, lemma_array_value, lemma_object_value, member, Json, JsonValue};

verus! {

/// The member `key` of an object; `null` for an object without it and for
/// anything that is no object.
pub open spec fn at(value: JsonValue, key: Seq<char>) -> JsonValue {
    match value {
        JsonValue::Object(members) => match member(members, key) {
            Some(found) => found,
            None => JsonValue::Null,
        },
        _ => JsonValue::Null,
    }
}

/// Whether an object has the member `key`.
pub open spec fn has(value: JsonValue, key: Seq<char>) -> bool {
    value matches JsonValue::Object(members) && member(members, key) is Some
}

/// The element `index` of an array; `null` for an array without it and for
/// anything that is no array.
pub open spec fn item(value: JsonValue, index: int) -> JsonValue {
    match value {
        JsonValue::Array(items) => if 0 <= index < items.len() {
            items[index]
        } else {
            JsonValue::Null
        },
        _ => JsonValue::Null,
    }
}

/// The elements of an array; none for anything that is no array.
pub open spec fn items(value: JsonValue) -> Seq<JsonValue> {
    match value {
        JsonValue::Array(items) => items,
        _ => Seq::empty(),
    }
}

/// The value as a signed integer, where it is a number that is one.
pub open spec fn as_int(value: JsonValue) -> Option<i64> {
    match value {
        JsonValue::Number(_, signed) => signed,
        _ => None,
    }
}

/// The value as text, where it is a string.
pub open spec fn as_text(value: JsonValue) -> Option<Seq<char>> {
    match value {
        JsonValue::String(text) => Some(text),
        _ => None,
    }
}

/// The value as a truth value, where it is a boolean.
pub open spec fn as_flag(value: JsonValue) -> Option<bool> {
    match value {
        JsonValue::Bool(flag) => Some(flag),
        _ => None,
    }
}

/// The member `key` of an object, if it has one.
pub fn get<'a>(json: &'a Json, key: &str) -> (r: Option<&'a Json>)
    ensures
        r is Some == has(json.deep_view(), key@),
        match r {
            Some(found) => found.deep_view() == at(json.deep_view(), key@),
            None => at(json.deep_view(), key@) == JsonValue::Null,
        },
{
    match json {
        Json::Object(members) => {
            proof {
                lemma_object_value(*members);
            }
            find_member(members, key)
        },
        _ => None,
    }
}

/// The element `index` of an array, if it has one.
pub fn get_item<'a>(json: &'a Json, index: usize) -> (r: Option<&'a Json>)
    ensures
        match r {
            Some(found) => found.deep_view() == item(json.deep_view(), index as int),
            None => item(json.deep_view(), index as int) == JsonValue::Null,
        },
{
    match json {
        Json::Array(elements) => {
            proof {
                lemma_array_value(*elements);
            }
            if index < elements.len() {
                Some(&elements[index])
            } else {
                None
            }
        },
        _ => None,
    }
}

/// The value as a signed integer, where it is one.
pub fn int_of(json: Option<&Json>) -> (r: Option<i64>)
    ensures
        r == match json {
            Some(value) => as_int(value.deep_view()),
            None => None,
        },
{
    match json {
        Some(Json::Number(_, signed)) => *signed,
        _ => None,
    }
}

/// The value as text, where it is a string.
pub fn text_of(json: Option<&Json>) -> (r: Option<String>)
    ensures
        r.deep_view() == match json {
            Some(value) => as_text(value.deep_view()),
            None => None,
        },
{
    match json {
        Some(Json::String(text)) => Some(text.clone()),
        _ => None,
    }
}

/// The value as a truth value, where it is a boolean.
pub fn flag_of(json: Option<&Json>) -> (r: Option<bool>)
    ensures
        r == match json {
            Some(value) => as_flag(value.deep_view()),
            None => None,
        },
{
    match json {
        Some(Json::Bool(flag)) => Some(*flag),
        _ => None,
    }
}

/// The signed integer under `key`, if there is one.
pub fn int_at(json: &Json, key: &str) -> (r: Option<i64>)
    ensures
        r == as_int(at(json.deep_view(), key@)),
{
    int_of(get(json, key))
}

/// The text under `key`, if there is one.
pub fn text_at(json: &Json, key: &str) -> (r: Option<String>)
    ensures
        r.deep_view() == as_text(at(json.deep_view(), key@)),
{
    text_of(get(json, key))
}

/// The truth value under `key`, if there is one.
pub fn flag_at(json: &Json, key: &str) -> (r: Option<bool>)
    ensures
        r == as_flag(at(json.deep_view(), key@)),
{
    flag_of(get(json, key))
}

} // verus!

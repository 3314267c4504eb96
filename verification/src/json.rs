//! A JSON document as a tree of plain values, and the two places where the
//! tree meets text: reading a document and writing one.

use vstd::prelude::*;

verus! {

/// A JSON document held as plain values.
///
/// A number keeps what it is as an unsigned and as a signed 64-bit integer; one
/// that is neither (a fraction, an exponent) keeps `None` twice. The members
/// of an object are a list of keys and values. A document that was read holds
/// each key once, in the order of the keys; where the text has a key twice,
/// the later value stays.
#[derive(Debug, PartialEq, Eq)]
pub enum Json {
    Null,
    Bool(bool),
    Number(Option<u64>, Option<i64>),
    String(String),
    Array(Vec<Json>),
    Object(Vec<(String, Json)>),
}

/// The mathematical value of a [`Json`] document.
pub enum JsonValue {
    Null,
    Bool(bool),
    Number(Option<u64>, Option<i64>),
    String(Seq<char>),
    Array(Seq<JsonValue>),
    Object(Seq<(Seq<char>, JsonValue)>),
}

impl Json {
    /// The mathematical value of the document.
    pub open spec fn value(self) -> JsonValue
        decreases self,
    {
        match self {
            Json::Null => JsonValue::Null,
            Json::Bool(b) => JsonValue::Bool(b),
            Json::Number(u, i) => JsonValue::Number(u, i),
            Json::String(s) => JsonValue::String(s@),
            Json::Array(items) => JsonValue::Array(
                Seq::new(
                    items@.len(),
                    |i: int|
                        if 0 <= i < items@.len() {
                            items@[i].value()
                        } else {
                            JsonValue::Null
                        },
                ),
            ),
            Json::Object(members) => JsonValue::Object(
                Seq::new(
                    members@.len(),
                    |i: int|
                        if 0 <= i < members@.len() {
                            (members@[i].0@, members@[i].1.value())
                        } else {
                            (Seq::empty(), JsonValue::Null)
                        },
                ),
            ),
        }
    }
}

impl DeepView for Json {
    type V = JsonValue;

    open spec fn deep_view(&self) -> JsonValue {
        self.value()
    }
}

/// The value of an array is the sequence of its items' values.
pub proof fn lemma_array_value(items: Vec<Json>)
    ensures
        Json::Array(items).deep_view() == JsonValue::Array(items.deep_view()),
{
    let whole = Json::Array(items).deep_view();
    assert(whole is Array);
    assert(whole->Array_0.len() == items@.len());
    assert forall|i: int| 0 <= i < items@.len() implies whole->Array_0[i] == items.deep_view()[i] by {}
    assert(whole->Array_0 =~= items.deep_view());
}

/// The value of an object is the sequence of its members' keys and values.
pub proof fn lemma_object_value(members: Vec<(String, Json)>)
    ensures
        Json::Object(members).deep_view() == JsonValue::Object(members.deep_view()),
{
    assert(Json::Object(members).deep_view()->Object_0 =~= members.deep_view());
}

/// The value of the first member of `members` whose key is `key`.
pub open spec fn member(members: Seq<(Seq<char>, JsonValue)>, key: Seq<char>) -> Option<JsonValue>
    decreases members.len(),
{
    if members.len() == 0 {
        None
    } else if members[0].0 == key {
        Some(members[0].1)
    } else {
        member(members.drop_first(), key)
    }
}

/// Looks a member up by its key; the first one wins.
pub fn find_member<'a>(members: &'a Vec<(String, Json)>, key: &str) -> (r: Option<&'a Json>)
    ensures
        r.deep_view() == member(members.deep_view(), key@),
{
    let mut i: usize = 0;
    assert(members.deep_view().skip(0) =~= members.deep_view());
    while i < members.len()
        invariant
            i <= members.len(),
            member(members.deep_view(), key@) == member(members.deep_view().skip(i as int), key@),
        decreases members.len() - i,
    {
        let ghost rest = members.deep_view().skip(i as int);
        assert(rest[0] == members.deep_view()[i as int]);
        assert(rest.drop_first() =~= members.deep_view().skip(i + 1));
        if crate::text::str_eq(members[i].0.as_str(), key) {
            return Some(&members[i].1);
        }
        i = i + 1;
    }
    None
}

/// What a document reads as: the tree that `serde_json::from_str` builds for
/// the text, each number kept as the integers that it is, or `None` where
/// `serde_json` reports an error.
pub uninterp spec fn parsed_json(text: Seq<char>) -> Option<JsonValue>;

/// How `serde_json::to_string_pretty` writes a tree, or `None` where it
/// reports an error.
pub uninterp spec fn pretty_json(value: JsonValue) -> Option<Seq<char>>;

/// The document tree of `serde_json`, carried between its reader and writer
/// and the conversions below.
#[verifier::external_type_specification]
#[verifier::external_body]
pub struct ExOutsideTree(serde_json::Value);

/// Moves a tree of `serde_json` into a [`Json`], one node for one node. A
/// number is carried over by `Number::as_u64` and `Number::as_i64`.
#[verifier::external_body]
fn json_from_outside(value: serde_json::Value) -> Json {
    match value {
        serde_json::Value::Null => Json::Null,
        serde_json::Value::Bool(b) => Json::Bool(b),
        serde_json::Value::Number(n) => Json::Number(n.as_u64(), n.as_i64()),
        serde_json::Value::String(s) => Json::String(s),
        serde_json::Value::Array(items) => Json::Array(items.into_iter().map(json_from_outside).collect()),
        serde_json::Value::Object(members) => Json::Object(
            members.into_iter().map(|(k, v)| (k, json_from_outside(v))).collect(),
        ),
    }
}

/// Moves a [`Json`] into a tree of `serde_json`, one node for one node. A
/// number that is neither integer becomes `null`.
#[verifier::external_body]
fn json_to_outside(json: &Json) -> serde_json::Value {
    match json {
        Json::Null | Json::Number(None, None) => serde_json::Value::Null,
        Json::Bool(b) => serde_json::Value::Bool(*b),
        Json::Number(Some(u), _) => serde_json::Value::from(*u),
        Json::Number(None, Some(i)) => serde_json::Value::from(*i),
        Json::String(s) => serde_json::Value::String(s.clone()),
        Json::Array(items) => serde_json::Value::Array(items.iter().map(json_to_outside).collect()),
        Json::Object(members) => serde_json::Value::Object(
            members.iter().map(|(k, v)| (k.clone(), json_to_outside(v))).collect(),
        ),
    }
}

/// Reads a JSON text with `serde_json::from_str`, asking for a
/// `serde_json::Value`. The result is the tree that `serde_json` builds,
/// moved into a [`Json`], or the message of the error that it reports. The
/// contract claims that this is a function of the text alone.
#[verifier::external_body]
fn read_document(text: &str) -> (r: Result<Json, String>)
    ensures
        match r {
            Ok(json) => parsed_json(text@) == Some(json.deep_view()),
            Err(_) => parsed_json(text@) is None,
        },
{
    match serde_json::from_str::<serde_json::Value>(text) {
        Ok(value) => Ok(json_from_outside(value)),
        Err(error) => Err(error.to_string()),
    }
}

/// Writes a tree, moved into a `serde_json::Value`, with
/// `serde_json::to_string_pretty`. The contract claims that the text is a
/// function of the tree's value alone.
#[verifier::external_body]
fn write_document(json: &Json) -> (r: Option<String>)
    ensures
        r.deep_view() == pretty_json(json.deep_view()),
{
    serde_json::to_string_pretty(&json_to_outside(json)).ok()
}

impl Json {
    /// Reads a JSON text. A text that is no JSON gives the reader's message.
    pub fn parse(text: &str) -> (r: Result<Json, String>)
        ensures
            match r {
                Ok(json) => parsed_json(text@) == Some(json.deep_view()),
                Err(_) => parsed_json(text@) is None,
            },
    {
        read_document(text)
    }

    /// Writes the document as indented JSON text.
    pub fn to_pretty_string(&self) -> (r: Option<String>)
        ensures
            r.deep_view() == pretty_json(self.deep_view()),
    {
        write_document(self)
    }
}

} // verus!

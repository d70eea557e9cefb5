//! JSON documents as plain data, and how to read them.

use vstd::prelude::*;
use crate::text::same_text;

verus! {

/// A JSON value.
///
/// A number holds its value if it is a non-negative integer that fits 64
/// bits, and nothing else. An object holds its members in the order of
/// the document that it was read from.
#[derive(Debug)]
pub enum Json {
    Null,
    Bool(bool),
    Number(Option<u64>),
    Text(String),
    Array(Vec<Json>),
    Object(Vec<(String, Json)>),
}

/// `serde_json::Value`, the value that the JSON parser builds.
#[verifier::external_type_specification]
#[verifier::external_body]
pub struct ExValue(serde_json::Value);

/// `serde_json::Error`, the error of the JSON parser.
#[verifier::external_type_specification]
#[verifier::external_body]
pub struct ExJsonError(serde_json::Error);

/// What a value of the JSON parser holds, as plain data: variant by
/// variant, a number as `serde_json::Number::as_u64` gives it, the members
/// of an object in the order in which `serde_json::Map::iter` yields them.
pub uninterp spec fn value_data(value: serde_json::Value) -> Json;

/// What `serde_json::from_str` reads from `text`, as plain data: the value
/// of the document, or `None` where the parser reports an error.
pub uninterp spec fn parsed_json(text: Seq<char>) -> Option<Json>;

/// Turns a value of the JSON parser into plain data, variant by variant:
/// a number keeps what `serde_json::Number::as_u64` gives, an object its
/// members in the order in which `serde_json::Map::iter` yields them. The
/// claim is only that the result is what the value holds.
#[verifier::external_body]
fn from_value(value: &serde_json::Value) -> (json: Json)
    ensures
        json == value_data(*value),
{
    match value {
        serde_json::Value::Null => Json::Null,
        serde_json::Value::Bool(b) => Json::Bool(*b),
        serde_json::Value::Number(n) => Json::Number(n.as_u64()),
        serde_json::Value::String(s) => Json::Text(s.clone()),
        serde_json::Value::Array(a) => Json::Array(a.iter().map(from_value).collect()),
        serde_json::Value::Object(o) => Json::Object(
            o.iter().map(|(k, v)| (k.clone(), from_value(v))).collect(),
        ),
    }
}

/// Parses `text` with `serde_json::from_str`. The claim is only that the
/// outcome is a function of the text: the value that was read, or the
/// error of the parser.
#[verifier::external_body]
fn parse_value(text: &str) -> (result: Result<serde_json::Value, serde_json::Error>)
    ensures
        match result {
            Ok(value) => parsed_json(text@) == Some(value_data(value)),
            Err(_) => parsed_json(text@) is None,
        },
{
    serde_json::from_str(text)
}

/// The message of an error of the JSON parser, as its `Display` gives it.
#[verifier::external_body]
fn error_text(error: &serde_json::Error) -> String {
    error.to_string()
}

/// Why a text could not be read as JSON.
#[derive(Debug)]
pub struct JsonError {
    /// What the parser said.
    pub message: String,
}

/// Reads `text` as a JSON document. Succeeds exactly when the parser
/// accepts the text, with the value that it reads from it.
pub fn parse_json(text: &str) -> (result: Result<Json, JsonError>)
    ensures
        match result {
            Ok(json) => parsed_json(text@) == Some(json),
            Err(_) => parsed_json(text@) is None,
        },
{
    match parse_value(text) {
        Ok(value) => Ok(from_value(&value)),
        Err(error) => Err(JsonError { message: error_text(&error) }),
    }
}

/// The value of the first member called `key` among the members from
/// position `from` on.
pub open spec fn find_member(members: Seq<(String, Json)>, key: Seq<char>, from: int) -> Option<
    Json,
>
    decreases members.len() - from,
{
    if from < 0 || from >= members.len() {
        None
    } else if members[from].0@ == key {
        Some(members[from].1)
    } else {
        find_member(members, key, from + 1)
    }
}

/// The member `key` of `json`: `None` if `json` is absent, is no object or
/// has no such member.
pub open spec fn member(json: Option<Json>, key: Seq<char>) -> Option<Json> {
    match json {
        Some(Json::Object(members)) => find_member(members@, key, 0),
        _ => None,
    }
}

/// The text that `json` is, if it is present and a text.
pub open spec fn text_of(json: Option<Json>) -> Option<String> {
    match json {
        Some(Json::Text(s)) => Some(s),
        _ => None,
    }
}

/// The number that `json` is, if it is present and a non-negative integer
/// that fits 64 bits.
pub open spec fn number_of(json: Option<Json>) -> Option<u64> {
    match json {
        Some(Json::Number(n)) => n,
        _ => None,
    }
}

/// The truth value that `json` is, if it is present and one.
pub open spec fn bool_of(json: Option<Json>) -> Option<bool> {
    match json {
        Some(Json::Bool(b)) => Some(b),
        _ => None,
    }
}

/// The elements of `json`, if it is present and an array.
pub open spec fn elements_of(json: Option<Json>) -> Option<Seq<Json>> {
    match json {
        Some(Json::Array(a)) => Some(a@),
        _ => None,
    }
}

/// The members of `json`, if it is present and an object.
pub open spec fn members_of(json: Option<Json>) -> Option<Seq<(String, Json)>> {
    match json {
        Some(Json::Object(o)) => Some(o@),
        _ => None,
    }
}

/// The spec value of an optional reference.
pub open spec fn deref_json(json: Option<&Json>) -> Option<Json> {
    match json {
        Some(j) => Some(*j),
        None => None,
    }
}

/// The member `key` of `json`: `None` if `json` is absent, is no object or
/// has no such member.
pub fn get<'a>(json: Option<&'a Json>, key: &str) -> (found: Option<&'a Json>)
    ensures
        deref_json(found) == member(deref_json(json), key@),
{
    match json {
        Some(Json::Object(members)) => {
            let mut i: usize = 0;
            while i < members.len()
                invariant
                    i <= members.len(),
                    json == Some(&Json::Object(*members)),
                    find_member(members@, key@, 0) == find_member(members@, key@, i as int),
                decreases members.len() - i,
            {
                if same_text(members[i].0.as_str(), key) {
                    assert(find_member(members@, key@, i as int) == Some(members@[i as int].1));
                    return Some(&members[i].1);
                }
                assert(find_member(members@, key@, i as int) == find_member(
                    members@,
                    key@,
                    i + 1,
                ));
                i = i + 1;
            }
            None
        },
        _ => None,
    }
}

/// The text that `json` is, if it is present and a text.
pub fn as_text<'a>(json: Option<&'a Json>) -> (text: Option<&'a String>)
    ensures
        match text {
            Some(s) => text_of(deref_json(json)) == Some(*s),
            None => text_of(deref_json(json)) is None,
        },
{
    match json {
        Some(Json::Text(s)) => Some(s),
        _ => None,
    }
}

/// The number that `json` is, if it is present and a non-negative integer
/// that fits 64 bits.
pub fn as_number(json: Option<&Json>) -> (n: Option<u64>)
    ensures
        n == number_of(deref_json(json)),
{
    match json {
        Some(Json::Number(n)) => *n,
        _ => None,
    }
}

/// The truth value that `json` is, if it is present and one.
pub fn as_bool(json: Option<&Json>) -> (b: Option<bool>)
    ensures
        b == bool_of(deref_json(json)),
{
    match json {
        Some(Json::Bool(b)) => Some(*b),
        _ => None,
    }
}

/// The elements of `json`, if it is present and an array.
pub fn as_array<'a>(json: Option<&'a Json>) -> (elements: Option<&'a Vec<Json>>)
    ensures
        match elements {
            Some(a) => elements_of(deref_json(json)) == Some(a@),
            None => elements_of(deref_json(json)) is None,
        },
{
    match json {
        Some(Json::Array(a)) => Some(a),
        _ => None,
    }
}

/// The members of `json`, if it is present and an object.
pub fn as_object<'a>(json: Option<&'a Json>) -> (members: Option<&'a Vec<(String, Json)>>)
    ensures
        match members {
            Some(o) => members_of(deref_json(json)) == Some(o@),
            None => members_of(deref_json(json)) is None,
        },
{
    match json {
        Some(Json::Object(o)) => Some(o),
        _ => None,
    }
}

} // verus!

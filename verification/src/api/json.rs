//! What the crate takes on trust from the `serde_json` crate: building a
//! JSON document and looking into one.
//!
//! Nothing in this file is proved. What a `serde_json::Value` holds is
//! given a name, [`json_of`], and each function below is believed to
//! build or return what that name stands for.

use vstd::prelude::*;

verus! {

/// `serde_json::Value`: a JSON document held in memory.
#[verifier::external_type_specification]
#[verifier::external_body]
pub struct ExJsonValue(serde_json::Value);

/// A JSON document, as far as the wire format reads it.
pub enum Json {
    Null,
    Bool(bool),
    /// A number that is held as an integer: a whole number from the least
    /// `i64` to the largest `u64`, written without fraction or exponent.
    Integer(int),
    /// Any other number, by the text it is written as.
    Fraction(Seq<char>),
    Text(Seq<char>),
    Array(Seq<Json>),
    Object(Map<Seq<char>, Json>),
}

/// The document that a `serde_json::Value` holds.
pub uninterp spec fn json_of(value: serde_json::Value) -> Json;

/// The documents that a list of values holds.
pub open spec fn jsons_of(values: Seq<serde_json::Value>) -> Seq<Json> {
    Seq::new(values.len(), |i: int| json_of(values[i]))
}

/// `serde_json::Map`: the members of a JSON object under construction.
#[verifier::external_type_specification]
#[verifier::external_body]
#[verifier::reject_recursive_types(K)]
#[verifier::reject_recursive_types(V)]
pub struct ExJsonMap<K, V>(serde_json::Map<K, V>);

/// The members that a `serde_json::Map` holds, by name.
pub uninterp spec fn members_of(map: serde_json::Map<String, serde_json::Value>) -> Map<
    Seq<char>,
    Json,
>;

/// The member of an object under `key`, none where the document is no
/// object or has no such member.
pub open spec fn member(json: Json, key: Seq<char>) -> Option<Json> {
    match json {
        Json::Object(members) => if members.contains_key(key) {
            Some(members[key])
        } else {
            None
        },
        _ => None,
    }
}

/// The text that `serde_json::to_string` writes for a document: its
/// compact JSON text, the members of an object in the order of their
/// names.
pub uninterp spec fn printed(json: Json) -> Seq<char>;

/// The document that `serde_json::from_str` reads from a text, none where
/// it reports an error.
pub uninterp spec fn parsed(text: Seq<char>) -> Option<Json>;

/// Calls `serde_json::to_string`, which does not fail on a `Value`. The
/// claim: it returns the text named [`printed`] for the document that the
/// value holds.
#[verifier::external_body]
pub(crate) fn print_json(value: &serde_json::Value) -> (text: String)
    ensures
        text@ == printed(json_of(*value)),
{
    serde_json::to_string(value).unwrap_or_default()
}

/// Calls `serde_json::from_str` and drops the error. The claim: it
/// returns a value that holds the document named [`parsed`], and none
/// exactly where that is none.
#[verifier::external_body]
pub(crate) fn parse_json(text: &str) -> (value: Option<serde_json::Value>)
    ensures
        match value {
            Some(v) => parsed(text@) == Some(json_of(v)),
            None => parsed(text@) is None,
        },
{
    serde_json::from_str(text).ok()
}

/// Builds `Value::Null`. The claim: it holds the document `null`.
#[verifier::external_body]
pub(crate) fn json_null() -> (value: serde_json::Value)
    ensures
        json_of(value) == Json::Null,
{
    serde_json::Value::Null
}

/// Builds `Value::Bool`. The claim: it holds the truth value given.
#[verifier::external_body]
pub(crate) fn json_bool(b: bool) -> (value: serde_json::Value)
    ensures
        json_of(value) == Json::Bool(b),
{
    serde_json::Value::Bool(b)
}

/// Calls `Value::from` on a `u64`. The claim: the value holds that integer.
#[verifier::external_body]
pub(crate) fn json_u64(n: u64) -> (value: serde_json::Value)
    ensures
        json_of(value) == Json::Integer(n as int),
{
    serde_json::Value::from(n)
}

/// Calls `Value::from` on an `i64`. The claim: the value holds that integer.
#[verifier::external_body]
pub(crate) fn json_i64(n: i64) -> (value: serde_json::Value)
    ensures
        json_of(value) == Json::Integer(n as int),
{
    serde_json::Value::from(n)
}

/// Builds `Value::String`. The claim: it holds the text given.
#[verifier::external_body]
pub(crate) fn json_text(s: String) -> (value: serde_json::Value)
    ensures
        json_of(value) == Json::Text(s@),
{
    serde_json::Value::String(s)
}

/// Builds `Value::Array`. The claim: it holds the documents of the items,
/// in their order.
#[verifier::external_body]
pub(crate) fn json_array(items: Vec<serde_json::Value>) -> (value: serde_json::Value)
    ensures
        json_of(value) == Json::Array(jsons_of(items@)),
{
    serde_json::Value::Array(items)
}

/// An object without members.
pub open spec fn no_members() -> Map<Seq<char>, Json> {
    Map::empty()
}

/// Calls `Map::new`. The claim: the map has no members.
#[verifier::external_body]
pub(crate) fn new_members() -> (members: serde_json::Map<String, serde_json::Value>)
    ensures
        members_of(members) == no_members(),
{
    serde_json::Map::new()
}

/// Calls `Map::insert`. The claim: the value stands under the name
/// afterwards, in place of the value that stood there before, if there
/// was one, and the other members are as they were.
#[verifier::external_body]
pub(crate) fn add_member(
    members: &mut serde_json::Map<String, serde_json::Value>,
    key: String,
    value: serde_json::Value,
)
    ensures
        members_of(*final(members)) == members_of(*old(members)).insert(key@, json_of(value)),
{
    members.insert(key, value);
}

/// Builds `Value::Object`. The claim: it holds an object with the members
/// of the map.
#[verifier::external_body]
pub(crate) fn json_object(map: serde_json::Map<String, serde_json::Value>) -> (value:
    serde_json::Value)
    ensures
        json_of(value) == Json::Object(members_of(map)),
{
    serde_json::Value::Object(map)
}

/// Calls `Value::get` with a string key. The claim: it returns the member
/// of that name where the value holds an object that has one.
#[verifier::external_body]
pub(crate) fn json_get<'a>(value: &'a serde_json::Value, key: &str) -> (found: Option<
    &'a serde_json::Value,
>)
    ensures
        match found {
            Some(v) => member(json_of(*value), key@) == Some(json_of(*v)),
            None => member(json_of(*value), key@) is None,
        },
{
    value.get(key)
}

/// `Value::as_str` returns the text of a value that holds one.
pub assume_specification<'a>[ serde_json::Value::as_str ](value: &'a serde_json::Value) -> (found:
    Option<&'a str>)
    ensures
        match found {
            Some(s) => json_of(*value) == Json::Text(s@),
            None => !(json_of(*value) is Text),
        },
;

/// `Value::as_bool` returns the truth value of a value that holds one.
pub assume_specification[ serde_json::Value::as_bool ](value: &serde_json::Value) -> (found: Option<
    bool,
>)
    ensures
        match found {
            Some(b) => json_of(*value) == Json::Bool(b),
            None => !(json_of(*value) is Bool),
        },
;

/// `Value::as_u64` returns the integer of a value that holds one from 0
/// to the largest `u64`.
pub assume_specification[ serde_json::Value::as_u64 ](value: &serde_json::Value) -> (found: Option<
    u64,
>)
    ensures
        match found {
            Some(n) => json_of(*value) == Json::Integer(n as int),
            None => !(json_of(*value) matches Json::Integer(n) && 0 <= n <= u64::MAX),
        },
;

/// `Value::as_i64` returns the integer of a value that holds one in the
/// range of `i64`.
pub assume_specification[ serde_json::Value::as_i64 ](value: &serde_json::Value) -> (found: Option<
    i64,
>)
    ensures
        match found {
            Some(n) => json_of(*value) == Json::Integer(n as int),
            None => !(json_of(*value) matches Json::Integer(n) && i64::MIN <= n <= i64::MAX),
        },
;

/// `Value::is_null` tells whether a value holds `null`.
pub assume_specification[ serde_json::Value::is_null ](value: &serde_json::Value) -> (yes: bool)
    ensures
        yes == (json_of(*value) is Null),
;

/// `Value::as_array` returns the items of a value that holds an array.
pub assume_specification<'a>[ serde_json::Value::as_array ](value: &'a serde_json::Value) -> (found:
    Option<&'a Vec<serde_json::Value>>)
    ensures
        match found {
            Some(items) => json_of(*value) == Json::Array(jsons_of(items@)),
            None => !(json_of(*value) is Array),
        },
;

/// `Value::is_object` tells whether a value holds an object.
pub assume_specification[ serde_json::Value::is_object ](value: &serde_json::Value) -> (yes: bool)
    ensures
        yes == (json_of(*value) is Object),
;

/// `Value::clone` returns a value that holds the same document.
pub assume_specification[ <serde_json::Value as Clone>::clone ](value: &serde_json::Value) -> (copy:
    serde_json::Value)
    ensures
        json_of(copy) == json_of(*value),
;

} // verus!

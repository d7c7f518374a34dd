//! JSON documents, as `serde_json` reads, holds and writes them.
//!
//! A document is held as a `serde_json::Value`. Nothing in this crate looks
//! inside one directly: [`Json`] says what a value is, and the functions below
//! are the only ones that make, read, parse or print one. Their contracts are
//! not proved here; each says what `serde_json` documents of the function it
//! calls.

use vstd::prelude::*;

verus! {

/// A JSON document as a mathematical value.
pub enum Json {
    Null,
    Bool(bool),
    /// A number that `serde_json` holds as an integer: one written without
    /// fraction or exponent that fits a `u64` or an `i64`.
    Integer(int),
    /// Any other number; the payload tells two such numbers apart.
    Fraction(int),
    Text(Seq<char>),
    Array(Seq<Json>),
    Object(Map<Seq<char>, Json>),
}

/// The member of an object under a key; `None` where the document is no
/// object or has no such member.
pub open spec fn member_of(doc: Json, key: Seq<char>) -> Option<Json> {
    match doc {
        Json::Object(members) => if members.contains_key(key) {
            Some(members[key])
        } else {
            None
        },
        _ => None,
    }
}

/// The members of the empty object.
pub open spec fn no_members() -> Map<Seq<char>, Json> {
    Map::empty()
}

/// `serde_json::Value`, held without looking inside.
#[verifier::external_type_specification]
#[verifier::external_body]
pub struct ExValue(serde_json::Value);

/// `serde_json::Map`, held without looking inside.
#[verifier::external_type_specification]
#[verifier::external_body]
#[verifier::reject_recursive_types(K)]
#[verifier::reject_recursive_types(V)]
pub struct ExJsonMap<K, V>(serde_json::Map<K, V>);

/// `serde_json::Error`: why bytes were rejected. Only its presence is used.
#[verifier::external_type_specification]
#[verifier::external_body]
pub struct ExJsonError(serde_json::Error);

/// The document that a `serde_json::Value` holds.
pub uninterp spec fn json_of(value: serde_json::Value) -> Json;

/// The members that a `serde_json::Map` holds.
pub uninterp spec fn members_of(map: serde_json::Map<String, serde_json::Value>) -> Map<
    Seq<char>,
    Json,
>;

/// The document that `serde_json` reads from the bytes; `None` where it
/// rejects them.
pub uninterp spec fn json_parse(bytes: Seq<u8>) -> Option<Json>;

/// The compact text that `serde_json` prints for the document.
pub uninterp spec fn json_text(doc: Json) -> Seq<char>;

/// The documents of a list of values.
pub open spec fn jsons_of(values: Seq<serde_json::Value>) -> Seq<Json> {
    values.map_values(|value: serde_json::Value| json_of(value))
}

/// `serde_json::from_slice` at `Value`: parses the bytes as one JSON
/// document, or rejects them.
#[verifier::external_body]
pub(crate) fn parse_document(bytes: &[u8]) -> (r: Result<serde_json::Value, serde_json::Error>)
    ensures
        match r {
            Ok(value) => json_parse(bytes@) == Some(json_of(value)),
            Err(_) => json_parse(bytes@) is None,
        },
{
    serde_json::from_slice::<serde_json::Value>(bytes)
}

/// `Value`'s `Display`, through `to_string`: the compact JSON text of the
/// document.
#[verifier::external_body]
pub(crate) fn print_document(value: &serde_json::Value) -> (text: String)
    ensures
        text@ == json_text(json_of(*value)),
{
    value.to_string()
}

/// `Value::get` with a text index: the member under the key, if the value is
/// an object that has one.
#[verifier::external_body]
pub(crate) fn member<'a>(value: &'a serde_json::Value, key: &str) -> (r: Option<
    &'a serde_json::Value,
>)
    ensures
        match r {
            Some(found) => member_of(json_of(*value), key@) == Some(json_of(*found)),
            None => member_of(json_of(*value), key@) is None,
        },
{
    value.get(key)
}

/// `Value::is_null`.
#[verifier::external_body]
pub(crate) fn is_null(value: &serde_json::Value) -> (r: bool)
    ensures
        r == (json_of(*value) is Null),
{
    value.is_null()
}

/// `Value::as_str`: the text, if the value is a string.
#[verifier::external_body]
pub(crate) fn as_text<'a>(value: &'a serde_json::Value) -> (r: Option<&'a str>)
    ensures
        match r {
            Some(text) => json_of(*value) == Json::Text(text@),
            None => !(json_of(*value) is Text),
        },
{
    value.as_str()
}

/// `Value::as_i64`: the number, if the value is an integer that an `i64`
/// can hold.
#[verifier::external_body]
pub(crate) fn as_integer(value: &serde_json::Value) -> (r: Option<i64>)
    ensures
        match r {
            Some(n) => json_of(*value) == Json::Integer(n as int),
            None => !(json_of(*value) matches Json::Integer(n) && i64::MIN <= n <= i64::MAX),
        },
{
    value.as_i64()
}

/// `Value::as_bool`: the truth value, if the value is a boolean.
#[verifier::external_body]
pub(crate) fn as_flag(value: &serde_json::Value) -> (r: Option<bool>)
    ensures
        match r {
            Some(flag) => json_of(*value) == Json::Bool(flag),
            None => !(json_of(*value) is Bool),
        },
{
    value.as_bool()
}

/// `Value::as_array`: the elements, if the value is an array.
#[verifier::external_body]
pub(crate) fn as_elements<'a>(value: &'a serde_json::Value) -> (r: Option<
    &'a Vec<serde_json::Value>,
>)
    ensures
        match r {
            Some(elements) => json_of(*value) == Json::Array(jsons_of(elements@)),
            None => !(json_of(*value) is Array),
        },
{
    value.as_array()
}

/// `Value::from` at `String`: the string with that text.
#[verifier::external_body]
pub(crate) fn text_value(text: String) -> (value: serde_json::Value)
    ensures
        json_of(value) == Json::Text(text@),
{
    serde_json::Value::from(text)
}

/// `Value::from` at `i64`: the integer.
#[verifier::external_body]
pub(crate) fn integer_value(n: i64) -> (value: serde_json::Value)
    ensures
        json_of(value) == Json::Integer(n as int),
{
    serde_json::Value::from(n)
}

/// `Value::from` at `bool`: the boolean.
#[verifier::external_body]
pub(crate) fn flag_value(flag: bool) -> (value: serde_json::Value)
    ensures
        json_of(value) == Json::Bool(flag),
{
    serde_json::Value::from(flag)
}

/// `Value::from` at `Vec<Value>`: the array of the elements, in order.
#[verifier::external_body]
pub(crate) fn array_value(elements: Vec<serde_json::Value>) -> (value: serde_json::Value)
    ensures
        json_of(value) == Json::Array(jsons_of(elements@)),
{
    serde_json::Value::from(elements)
}

/// `Value::from` at `Map<String, Value>`: the object with those members.
#[verifier::external_body]
pub(crate) fn object_value(members: serde_json::Map<String, serde_json::Value>) -> (value:
    serde_json::Value)
    ensures
        json_of(value) == Json::Object(members_of(members)),
{
    serde_json::Value::from(members)
}

/// `Map::new`: the map without members.
#[verifier::external_body]
pub(crate) fn new_members() -> (fresh: serde_json::Map<String, serde_json::Value>)
    ensures
        members_of(fresh) == no_members(),
{
    serde_json::Map::new()
}

/// `Map::insert`: sets the member under the key, replacing one that was
/// there.
#[verifier::external_body]
pub(crate) fn set_member(members: &mut serde_json::Map<String, serde_json::Value>, key: String, value: serde_json::Value)
    ensures
        members_of(*final(members)) == members_of(*old(members)).insert(key@, json_of(value)),
{
    members.insert(key, value);
}

} // verus!

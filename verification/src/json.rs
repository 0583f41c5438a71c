//! JSON documents: a mathematical model of them, and the calls into
//! `serde_json` that build and write them.
use vstd::prelude::*;

verus! {

/// A JSON document.
pub enum Json {
    Null,
    Bool(bool),
    /// A number written without fraction or exponent.
    Integer(int),
    /// Any other number, as the bits of its 64-bit IEEE 754 form.
    Real(u64),
    Text(Seq<char>),
    Array(Seq<Json>),
    /// An object: each key once, with its value.
    Object(Map<Seq<char>, Json>),
}

/// `serde_json::Value`, a JSON document in memory.
#[verifier::external_type_specification]
#[verifier::external_body]
pub struct ExValue(serde_json::Value);

/// `serde_json::Map`, the members of a JSON object.
#[verifier::external_type_specification]
#[verifier::external_body]
#[verifier::reject_recursive_types(K)]
#[verifier::reject_recursive_types(V)]
pub struct ExMap<K, V>(serde_json::Map<K, V>);

/// `serde_json::Error`.
#[verifier::external_type_specification]
#[verifier::external_body]
pub struct ExError(serde_json::Error);

/// The members of a JSON object in memory.
pub type ObjectMap = serde_json::Map<String, serde_json::Value>;

/// The members of a JSON object: each key with its value.
pub type Members = Map<Seq<char>, Json>;

/// The document that a `serde_json::Value` holds.
pub uninterp spec fn json_view(value: serde_json::Value) -> Json;

/// The members that a `serde_json::Map` holds, by key.
pub uninterp spec fn json_entries(object: ObjectMap) -> Members;

/// The compact text that `serde_json` writes for a document.
pub uninterp spec fn json_text(document: Json) -> Seq<char>;

/// Makes the variant `serde_json::Value::String`.
///
/// Trusted: the value holds the given text.
#[verifier::external_body]
pub(crate) fn text_value(text: String) -> (value: serde_json::Value)
    ensures
        json_view(value) == Json::Text(text@),
{
    serde_json::Value::String(text)
}

/// Makes the variant `serde_json::Value::Number` from an unsigned integer,
/// through `serde_json::Number::from`.
///
/// Trusted: the value holds that integer.
#[verifier::external_body]
pub(crate) fn number_value(number: u64) -> (value: serde_json::Value)
    ensures
        json_view(value) == Json::Integer(number as int),
{
    serde_json::Value::Number(serde_json::Number::from(number))
}

/// Makes the variant `serde_json::Value::Object`.
///
/// Trusted: the value holds an object with the map's members.
#[verifier::external_body]
pub(crate) fn object_value(object: ObjectMap) -> (value: serde_json::Value)
    ensures
        json_view(value) == Json::Object(json_entries(object)),
{
    serde_json::Value::Object(object)
}

/// Calls `serde_json::Map::new`.
///
/// Trusted: the new map has no members.
#[verifier::external_body]
pub(crate) fn new_object() -> (object: ObjectMap)
    ensures
        json_entries(object) == Members::empty(),
{
    serde_json::Map::new()
}

/// Calls `serde_json::Map::insert`.
///
/// Trusted: afterwards the key stands for the given value and every other
/// key for what it stood for before; the value that the key stood for
/// before, if any, is handed back.
#[verifier::external_body]
pub(crate) fn insert_member(
    object: &mut ObjectMap,
    key: String,
    value: serde_json::Value,
) -> (previous: Option<serde_json::Value>)
    ensures
        json_entries(*final(object)) == json_entries(*old(object)).insert(key@, json_view(value)),
        match previous {
            Some(earlier) => json_entries(*old(object)).contains_key(key@) && json_view(earlier)
                == json_entries(*old(object))[key@],
            None => !json_entries(*old(object)).contains_key(key@),
        },
{
    object.insert(key, value)
}

/// Calls `serde_json::to_string` on a `serde_json::Value`.
///
/// Trusted: the call succeeds, and the text depends on the document alone:
/// it is the one that [`json_text`] names. The writer fails only where a
/// write into its buffer fails or a map has a key that is no string; the
/// buffer is a vector in memory, and the keys of a `Value` are strings.
#[verifier::external_body]
pub(crate) fn write_text(value: &serde_json::Value) -> (result: Result<String, serde_json::Error>)
    ensures
        result is Ok,
        result matches Ok(text) ==> text@ == json_text(json_view(*value)),
{
    serde_json::to_string(value)
}

} // verus!

//! JSON documents: their mathematical model, and the `serde_json` calls that
//! parse, inspect, build and print them.
//!
//! What `serde_json` does is taken on trust, not proved. Each declaration
//! below that stands for one of its functions says so in its doc comment,
//! with what is claimed of it.

use vstd::prelude::*;

verus! {

/// A JSON document as a mathematical value.
pub enum Json {
    Null,
    Bool(bool),
    /// A number, held as the text that `serde_json` prints for it.
    Number(Seq<char>),
    Text(Seq<char>),
    Array(Seq<Json>),
    /// An object: each key occurs once, and the keys carry no order of their own.
    Object(Map<Seq<char>, Json>),
}

/// `serde_json::Value`, opaque to the verifier.
#[verifier::external_type_specification]
#[verifier::external_body]
pub struct ExValue(serde_json::Value);

/// `serde_json::Map`, opaque to the verifier.
#[verifier::external_type_specification]
#[verifier::external_body]
#[verifier::reject_recursive_types(K)]
#[verifier::reject_recursive_types(V)]
pub struct ExObject<K, V>(serde_json::Map<K, V>);

/// `serde_json::Error`, opaque to the verifier.
#[verifier::external_type_specification]
#[verifier::external_body]
pub struct ExError(serde_json::Error);

/// The document that a `serde_json::Value` holds.
pub uninterp spec fn json_of(value: serde_json::Value) -> Json;

/// The members that a `serde_json::Map` holds, by key.
pub uninterp spec fn members_of(object: serde_json::Map<String, serde_json::Value>) -> Map<
    Seq<char>,
    Json,
>;

/// The document that `serde_json::from_slice` reads from these bytes, `None`
/// where it reports an error.
pub uninterp spec fn parsed(bytes: Seq<u8>) -> Option<Json>;

/// The bytes that `serde_json::to_vec_pretty` prints for a document, `None`
/// where it reports an error.
pub uninterp spec fn rendered(doc: Json) -> Option<Seq<u8>>;

/// The documents that a sequence of values holds, in order.
pub open spec fn jsons_of(values: Seq<serde_json::Value>) -> Seq<Json> {
    values.map_values(|v: serde_json::Value| json_of(v))
}

/// `serde_json::from_slice::<Value>`: parses a whole JSON text. The value it
/// returns holds the document named `parsed`; it fails exactly where `parsed`
/// is `None`.
#[verifier::external_body]
pub(crate) fn parse(bytes: &[u8]) -> (r: Result<serde_json::Value, serde_json::Error>)
    ensures
        match r {
            Ok(value) => parsed(bytes@) == Some(json_of(value)),
            Err(_) => parsed(bytes@) is None,
        },
{
    serde_json::from_slice::<serde_json::Value>(bytes)
}

/// `serde_json::to_vec_pretty`: prints a value as indented JSON text. The
/// bytes it returns are those named `rendered` for the value's document; it
/// fails exactly where `rendered` is `None`.
#[verifier::external_body]
pub(crate) fn render(value: &serde_json::Value) -> (r: Result<Vec<u8>, serde_json::Error>)
    ensures
        match r {
            Ok(bytes) => rendered(json_of(*value)) == Some(bytes@),
            Err(_) => rendered(json_of(*value)) is None,
        },
{
    serde_json::to_vec_pretty(value)
}

/// `Value::as_array`: the items of an array, `None` for any other value.
pub assume_specification[ serde_json::Value::as_array ](value: &serde_json::Value) -> (r: Option<
    &Vec<serde_json::Value>,
>)
    ensures
        match r {
            Some(items) => json_of(*value) == Json::Array(jsons_of(items@)),
            None => !(json_of(*value) is Array),
        },
;

/// `Value::as_str`: the text of a string, `None` for any other value.
pub assume_specification[ serde_json::Value::as_str ](value: &serde_json::Value) -> (r: Option<
    &str,
>)
    ensures
        match r {
            Some(text) => json_of(*value) == Json::Text(text@),
            None => !(json_of(*value) is Text),
        },
;

/// `Value::as_bool`: the flag of a boolean, `None` for any other value.
pub assume_specification[ serde_json::Value::as_bool ](value: &serde_json::Value) -> (r: Option<
    bool,
>)
    ensures
        match r {
            Some(flag) => json_of(*value) == Json::Bool(flag),
            None => !(json_of(*value) is Bool),
        },
;

/// `Value::get` with a string key: the member of an object under that key,
/// `None` where the value is no object or the object has no such key.
#[verifier::external_body]
pub(crate) fn member<'a>(value: &'a serde_json::Value, key: &str) -> (r: Option<
    &'a serde_json::Value,
>)
    ensures
        match r {
            Some(found) => json_of(*value) matches Json::Object(members)
                && members.contains_key(key@) && members[key@] == json_of(*found),
            None => !(json_of(*value) matches Json::Object(members) && members.contains_key(
                key@,
            )),
        },
{
    value.get(key)
}

/// The variant `Value::String`: a value that holds the given text as a JSON
/// string.
#[verifier::external_body]
pub(crate) fn text_value(text: String) -> (value: serde_json::Value)
    ensures
        json_of(value) == Json::Text(text@),
{
    serde_json::Value::String(text)
}

/// The variant `Value::Bool`: a value that holds the given flag as a JSON
/// boolean.
#[verifier::external_body]
pub(crate) fn bool_value(flag: bool) -> (value: serde_json::Value)
    ensures
        json_of(value) == Json::Bool(flag),
{
    serde_json::Value::Bool(flag)
}

/// The variant `Value::Array`: a value that holds the given items as a JSON
/// array, in the order given.
#[verifier::external_body]
pub(crate) fn array_value(items: Vec<serde_json::Value>) -> (value: serde_json::Value)
    ensures
        json_of(value) == Json::Array(jsons_of(items@)),
{
    serde_json::Value::Array(items)
}

/// The variant `Value::Object`: a value that holds the members of the given
/// map as a JSON object.
#[verifier::external_body]
pub(crate) fn object_value(object: serde_json::Map<String, serde_json::Value>) -> (value:
    serde_json::Value)
    ensures
        json_of(value) == Json::Object(members_of(object)),
{
    serde_json::Value::Object(object)
}

/// `Map::new`: an object without members.
#[verifier::external_body]
pub(crate) fn empty_object() -> (made: serde_json::Map<String, serde_json::Value>)
    ensures
        members_of(made) =~= Map::empty(),
{
    serde_json::Map::new()
}

/// `Map::insert`: puts a member under a key, in place of the member that the
/// key had, if any. What the call returns is dropped.
#[verifier::external_body]
pub(crate) fn put_member(
    object: &mut serde_json::Map<String, serde_json::Value>,
    key: String,
    value: serde_json::Value,
)
    ensures
        members_of(*final(object)) == members_of(*old(object)).insert(key@, json_of(value)),
{
    object.insert(key, value);
}

} // verus!

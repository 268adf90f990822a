//! JSON documents, read and written by `serde_json`.
//!
//! A document is held as `serde_json` holds it. [`Json`] is what it says as plain values, and the
//! functions here, each of which makes one call into `serde_json` or moves a value into or out of
//! one of its variants, are specified over that.
use vstd::prelude::*;
use serde_json::Value;
use crate::text;

verus! {

/// A JSON document as plain values.
pub enum Json {
    Null,
    Bool(bool),
    /// An integer from zero up.
    Unsigned(u64),
    /// An integer below zero.
    Negative(i64),
    /// Any other number, by the bits of its double precision form.
    Float(u64),
    Text(Seq<char>),
    Array(Seq<Json>),
    Object(Map<Seq<char>, Json>),
}

/// `serde_json::Value`, read through [`json`].
#[verifier::external_type_specification]
#[verifier::external_body]
pub struct ExValue(serde_json::Value);

/// `serde_json::Map`, read through [`entries`].
#[verifier::external_type_specification]
#[verifier::external_body]
#[verifier::reject_recursive_types(K)]
#[verifier::reject_recursive_types(V)]
pub struct ExMap<K, V>(serde_json::Map<K, V>);

/// What a `serde_json::Value` holds.
pub uninterp spec fn json(value: Value) -> Json;

/// What a `serde_json::Map` holds.
pub uninterp spec fn entries(object: serde_json::Map<String, Value>) -> Map<Seq<char>, Json>;

/// The document that `serde_json::from_slice` reads from these bytes, if it reads one.
pub uninterp spec fn parsed_json(bytes: Seq<u8>) -> Option<Json>;

/// The bytes that `serde_json::to_vec_pretty` writes for an object with these entries.
pub uninterp spec fn pretty_json(object: Map<Seq<char>, Json>) -> Seq<u8>;

/// `depth` levels of arrays and objects are enough for `document`.
pub open spec fn is_within_depth(document: Json, depth: nat) -> bool
    decreases document,
{
    match document {
        Json::Array(items) => depth > 0 && forall|i: int|
            0 <= i < items.len() ==> is_within_depth(#[trigger] items[i], (depth - 1) as nat),
        Json::Object(object) => depth > 0 && forall|key: Seq<char>|
            object.dom().contains(key) ==> is_within_depth(
                #[trigger] object[key],
                (depth - 1) as nat,
            ),
        _ => true,
    }
}

/// `document` holds no number that is not an integer.
pub open spec fn has_no_float(document: Json) -> bool
    decreases document,
{
    match document {
        Json::Float(_) => false,
        Json::Array(items) => forall|i: int|
            0 <= i < items.len() ==> has_no_float(#[trigger] items[i]),
        Json::Object(object) => forall|key: Seq<char>|
            object.dom().contains(key) ==> has_no_float(#[trigger] object[key]),
        _ => true,
    }
}

/// Two documents that differ in the value of floating point numbers at most.
pub open spec fn same_but_floats(a: Json, b: Json) -> bool
    decreases a,
{
    match (a, b) {
        (Json::Float(_), Json::Float(_)) => true,
        (Json::Array(x), Json::Array(y)) => x.len() == y.len() && forall|i: int|
            0 <= i < x.len() ==> same_but_floats(#[trigger] x[i], y[i]),
        (Json::Object(x), Json::Object(y)) => x.dom() == y.dom() && forall|key: Seq<char>|
            x.dom().contains(key) ==> same_but_floats(#[trigger] x[key], y[key]),
        _ => a == b,
    }
}

/// `serde_json::from_slice`, into a `Value`: what is read, and whether anything is, depends on the
/// bytes alone. A document of more than 127 levels is not read.
#[verifier::external_body]
pub(crate) fn parse_json(bytes: &[u8]) -> (r: Result<Value, serde_json::Error>)
    ensures
        match r {
            Ok(value) => parsed_json(bytes@) == Some(json(value)),
            Err(_) => parsed_json(bytes@) is None,
        },
        r matches Ok(value) ==> is_within_depth(json(value), 127),
{
    serde_json::from_slice::<Value>(bytes)
}

/// `serde_json::to_vec_pretty`, of an object: it does not fail, and the bytes depend on the
/// entries alone and start with an opening brace. Where they can be read again, what is read
/// differs in the value of floating point numbers at most; they can be read again where the object
/// has no such number and at most 127 levels.
#[verifier::external_body]
pub(crate) fn to_vec_pretty(
    object: &serde_json::Map<String, Value>,
) -> (r: Result<Vec<u8>, serde_json::Error>)
    ensures
        r is Ok,
        r->Ok_0@ == pretty_json(entries(*object)),
        r->Ok_0@.len() > 0 && r->Ok_0@[0] == 0x7B,
        parsed_json(r->Ok_0@) matches Some(document) ==> same_but_floats(
            Json::Object(entries(*object)),
            document,
        ),
        is_within_depth(Json::Object(entries(*object)), 127) && has_no_float(
            Json::Object(entries(*object)),
        ) ==> parsed_json(r->Ok_0@) is Some,
{
    serde_json::to_vec_pretty(object)
}

/// `serde_json::Map::get`: the value at a key, where the object has the key.
#[verifier::external_body]
pub(crate) fn get<'a>(object: &'a serde_json::Map<String, Value>, key: &str) -> (r: Option<
    &'a Value,
>)
    ensures
        match r {
            Some(value) => entries(*object).dom().contains(key@) && json(*value) == entries(
                *object,
            )[key@],
            None => !entries(*object).dom().contains(key@),
        },
{
    object.get(key)
}

/// `serde_json::Map::get_mut`: the value at a key, to be changed in place, where the object has
/// the key; nothing else of the object changes.
#[verifier::external_body]
pub(crate) fn get_mut<'a>(object: &'a mut serde_json::Map<String, Value>, key: &str) -> (r: Option<
    &'a mut Value,
>)
    ensures
        match r {
            Some(value) => {
                &&& entries(*old(object)).dom().contains(key@)
                &&& json(*value) == entries(*old(object))[key@]
                &&& entries(*final(object)) == entries(*old(object)).insert(
                    key@,
                    json(*final(value)),
                )
            },
            None => {
                &&& !entries(*old(object)).dom().contains(key@)
                &&& entries(*final(object)) == entries(*old(object))
            },
        },
{
    object.get_mut(key)
}

/// `serde_json::Map::insert`: the object then has the value at the key, whatever it had there
/// before.
#[verifier::external_body]
pub(crate) fn insert(object: &mut serde_json::Map<String, Value>, key: String, value: Value)
    ensures
        entries(*final(object)) == entries(*old(object)).insert(key@, json(value)),
{
    object.insert(key, value);
}

/// `serde_json::Map::keys`: each key of the object, once.
#[verifier::external_body]
pub(crate) fn keys(object: &serde_json::Map<String, Value>) -> (r: Vec<String>)
    ensures
        text::texts(r@).no_duplicates(),
        forall|key: Seq<char>|
            text::texts(r@).contains(key) <==> #[trigger] entries(*object).dom().contains(key),
{
    object.keys().cloned().collect()
}

/// `serde_json::Value::as_object`: the object that a value is, if it is one.
#[verifier::external_body]
pub(crate) fn as_object(value: &Value) -> (r: Option<&serde_json::Map<String, Value>>)
    ensures
        match r {
            Some(object) => json(*value) == Json::Object(entries(*object)),
            None => json(*value) !is Object,
        },
{
    value.as_object()
}

/// `serde_json::Value::as_object_mut`: the object that a value is, to be changed in place, if it
/// is one.
#[verifier::external_body]
pub(crate) fn as_object_mut(value: &mut Value) -> (r: Option<&mut serde_json::Map<String, Value>>)
    ensures
        match r {
            Some(object) => {
                &&& json(*old(value)) == Json::Object(entries(*object))
                &&& json(*final(value)) == Json::Object(entries(*final(object)))
            },
            None => json(*old(value)) !is Object && json(*final(value)) == json(*old(value)),
        },
{
    value.as_object_mut()
}

/// The object that a `serde_json::Value` is, taken out of its `Object` variant.
#[verifier::external_body]
pub(crate) fn into_object(value: Value) -> (r: Option<serde_json::Map<String, Value>>)
    ensures
        match r {
            Some(object) => json(value) == Json::Object(entries(object)),
            None => json(value) !is Object,
        },
{
    match value {
        Value::Object(object) => Some(object),
        _ => None,
    }
}

/// `serde_json::Value::as_u64`: the integer from zero up that a value is, if it is one.
#[verifier::external_body]
pub(crate) fn as_u64(value: &Value) -> (r: Option<u64>)
    ensures
        match r {
            Some(number) => json(*value) == Json::Unsigned(number),
            None => json(*value) !is Unsigned,
        },
{
    value.as_u64()
}

/// `serde_json::Value::as_str`: the text that a value is, if it is one.
#[verifier::external_body]
pub(crate) fn as_str(value: &Value) -> (r: Option<&str>)
    ensures
        match r {
            Some(text) => json(*value) == Json::Text(text@),
            None => json(*value) !is Text,
        },
{
    value.as_str()
}

/// A text as the `String` variant of `serde_json::Value`.
#[verifier::external_body]
pub(crate) fn text_value(text: String) -> (r: Value)
    ensures
        json(r) == Json::Text(text@),
{
    Value::String(text)
}

/// `serde_json::Value::clone`: a value that holds the same.
#[verifier::external_body]
pub(crate) fn clone_value(value: &Value) -> (r: Value)
    ensures
        json(r) == json(*value),
{
    value.clone()
}

} // verus!

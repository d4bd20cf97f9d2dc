//! JSON documents. Parsing and printing are done by `serde_json`; this module
//! gives its values a mathematical model and states, for each `serde_json`
//! function the library calls, what that function does to the model. Those
//! statements are believed, not proved: each one names the function it is about.

use vstd::prelude::*;

verus! {

/// What a JSON document holds. A number is kept as the text `serde_json`
/// prints for it; the members of an object are kept in the order in which the
/// object yields them.
pub enum JsonModel {
    Null,
    Bool(bool),
    Number(Seq<char>),
    Text(Seq<char>),
    Array(Seq<JsonModel>),
    Object(Seq<(Seq<char>, JsonModel)>),
}

/// No key occurs twice among `entries`.
pub open spec fn distinct_keys(entries: Seq<(Seq<char>, JsonModel)>) -> bool {
    forall|i: int, j: int|
        0 <= i < j < entries.len() ==> (#[trigger] entries[i]).0 != (#[trigger] entries[j]).0
}

/// The value that `entries` holds under `key`.
pub open spec fn field(entries: Seq<(Seq<char>, JsonModel)>, key: Seq<char>) -> Option<JsonModel> {
    if exists|i: int| 0 <= i < entries.len() && (#[trigger] entries[i]).0 == key {
        let i = choose|i: int| 0 <= i < entries.len() && (#[trigger] entries[i]).0 == key;
        Some(entries[i].1)
    } else {
        None
    }
}

/// The member of `document` under `key`: present only where `document` is an
/// object with such a key.
pub open spec fn member(document: JsonModel, key: Seq<char>) -> Option<JsonModel> {
    match document {
        JsonModel::Object(entries) => field(entries, key),
        _ => None,
    }
}

/// The models of a vector of values, element by element.
pub open spec fn models_of(items: Seq<serde_json::Value>) -> Seq<JsonModel> {
    items.map_values(|item: serde_json::Value| json_model(item))
}

/// `serde_json::Value`, carried through verified code as an opaque value.
#[verifier::external_type_specification]
#[verifier::external_body]
pub struct ExJsonValue(serde_json::Value);

/// `serde_json::Error`, carried through verified code as an opaque value.
#[verifier::external_type_specification]
#[verifier::external_body]
pub struct ExJsonError(serde_json::Error);

/// `serde_json::Map`, carried through verified code as an opaque value.
#[verifier::external_type_specification]
#[verifier::external_body]
#[verifier::reject_recursive_types(K)]
#[verifier::reject_recursive_types(V)]
pub struct ExJsonMap<K, V>(serde_json::Map<K, V>);

/// What a `serde_json::Value` holds.
pub uninterp spec fn json_model(value: serde_json::Value) -> JsonModel;

/// What a `serde_json::Map` holds: its keys and values, in iteration order.
pub uninterp spec fn object_entries(map: serde_json::Map<String, serde_json::Value>) -> Seq<
    (Seq<char>, JsonModel),
>;

/// The message that a `serde_json::Error` displays.
pub uninterp spec fn json_error_text(error: serde_json::Error) -> Seq<char>;

/// The outcome of `serde_json::from_str` on `text`: the document read, or the
/// message of the error raised.
pub uninterp spec fn parsed_json(text: Seq<char>) -> Result<JsonModel, Seq<char>>;

/// The outcome of `serde_json::to_string` on a document: the text printed,
/// or the message of the error raised.
pub uninterp spec fn compact_printed(document: JsonModel) -> Result<Seq<char>, Seq<char>>;

/// The outcome of `serde_json::to_string_pretty` on a document: the text
/// printed, or the message of the error raised.
pub uninterp spec fn pretty_printed(document: JsonModel) -> Result<Seq<char>, Seq<char>>;

/// Calls `serde_json::from_str` for a `Value`. Believed: whether it succeeds,
/// the document it reads and the error it raises depend on `text` alone.
#[verifier::external_body]
pub(crate) fn parse_json(text: &str) -> (res: Result<serde_json::Value, serde_json::Error>)
    ensures
        match res {
            Ok(value) => parsed_json(text@) == Ok::<JsonModel, Seq<char>>(json_model(value)),
            Err(error) => parsed_json(text@) == Err::<JsonModel, Seq<char>>(
                json_error_text(error),
            ),
        },
{
    serde_json::from_str::<serde_json::Value>(text)
}

/// Calls `to_string` on a `serde_json::Error`, which runs its `Display` impl.
/// Believed: the message is a function of the error.
#[verifier::external_body]
pub(crate) fn json_error_message(error: &serde_json::Error) -> (res: String)
    ensures
        res@ == json_error_text(*error),
{
    error.to_string()
}

/// Calls `serde_json::to_string`. Believed: whether it succeeds, the text it
/// prints and the error it raises depend on what the value holds alone.
/// Nothing is claimed of when it fails.
#[verifier::external_body]
pub(crate) fn to_compact_text(value: &serde_json::Value) -> (res: Result<
    String,
    serde_json::Error,
>)
    ensures
        match res {
            Ok(text) => compact_printed(json_model(*value)) == Ok::<Seq<char>, Seq<char>>(text@),
            Err(error) => compact_printed(json_model(*value)) == Err::<Seq<char>, Seq<char>>(
                json_error_text(error),
            ),
        },
{
    serde_json::to_string(value)
}

/// Calls `serde_json::to_string_pretty`. Believed: whether it succeeds, the
/// text it prints and the error it raises depend on what the value holds
/// alone. Nothing is claimed of when it fails.
#[verifier::external_body]
pub(crate) fn to_pretty_text(value: &serde_json::Value) -> (res: Result<
    String,
    serde_json::Error,
>)
    ensures
        match res {
            Ok(text) => pretty_printed(json_model(*value)) == Ok::<Seq<char>, Seq<char>>(text@),
            Err(error) => pretty_printed(json_model(*value)) == Err::<Seq<char>, Seq<char>>(
                json_error_text(error),
            ),
        },
{
    serde_json::to_string_pretty(value)
}

/// Calls `Value::get` with a string key. Believed: it finds the member stored
/// under `key` where the value is an object that has one, and nothing
/// otherwise.
#[verifier::external_body]
pub(crate) fn json_get<'a>(value: &'a serde_json::Value, key: &str) -> (res: Option<
    &'a serde_json::Value,
>)
    ensures
        match res {
            Some(found) => member(json_model(*value), key@) == Some(json_model(*found)),
            None => member(json_model(*value), key@) is None,
        },
{
    value.get(key)
}

/// Calls `Value::as_array`. Believed: it hands out the elements where the
/// value is an array, and nothing otherwise.
#[verifier::external_body]
pub(crate) fn json_as_array<'a>(value: &'a serde_json::Value) -> (res: Option<
    &'a Vec<serde_json::Value>,
>)
    ensures
        match res {
            Some(items) => json_model(*value) == JsonModel::Array(models_of(items@)),
            None => !(json_model(*value) is Array),
        },
{
    value.as_array()
}

/// Calls `Value::is_array`. Believed: it tells whether the value is an array.
#[verifier::external_body]
pub(crate) fn json_is_array(value: &serde_json::Value) -> (res: bool)
    ensures
        res == (json_model(*value) is Array),
{
    value.is_array()
}

/// Calls `Value::as_str`. Believed: it hands out the text where the value is
/// a string, and nothing otherwise.
#[verifier::external_body]
pub(crate) fn json_as_str<'a>(value: &'a serde_json::Value) -> (res: Option<&'a str>)
    ensures
        match res {
            Some(text) => json_model(*value) == JsonModel::Text(text@),
            None => !(json_model(*value) is Text),
        },
{
    value.as_str()
}

/// Builds `Value::String`. Believed: the value holds exactly `text`.
#[verifier::external_body]
pub(crate) fn json_string(text: String) -> (res: serde_json::Value)
    ensures
        json_model(res) == JsonModel::Text(text@),
{
    serde_json::Value::String(text)
}

/// Calls `Map::new`. Believed: the new map is empty.
#[verifier::external_body]
pub(crate) fn json_map_new() -> (res: serde_json::Map<String, serde_json::Value>)
    ensures
        object_entries(res) == Seq::<(Seq<char>, JsonModel)>::empty(),
{
    serde_json::Map::new()
}

/// Calls `Map::insert`. Believed: afterwards `key` leads to `value` and
/// every other key to what it led to before; no key occurs twice; a new key
/// makes the map one longer; the value replaced, if any, is handed back.
/// Where in the order a new key stands is left open.
#[verifier::external_body]
pub(crate) fn json_map_insert(
    map: &mut serde_json::Map<String, serde_json::Value>,
    key: String,
    value: serde_json::Value,
) -> (res: Option<serde_json::Value>)
    ensures
        field(object_entries(*final(map)), key@) == Some(json_model(value)),
        forall|other: Seq<char>|
            other != key@ ==> field(object_entries(*final(map)), other) == field(
                object_entries(*old(map)),
                other,
            ),
        distinct_keys(object_entries(*final(map))),
        object_entries(*final(map)).len() == object_entries(*old(map)).len() + (if res is Some {
            0int
        } else {
            1int
        }),
        match res {
            Some(previous) => field(object_entries(*old(map)), key@) == Some(
                json_model(previous),
            ),
            None => field(object_entries(*old(map)), key@) is None,
        },
{
    map.insert(key, value)
}

/// Builds `Value::Object`. Believed: the value holds the map's entries.
#[verifier::external_body]
pub(crate) fn json_object(map: serde_json::Map<String, serde_json::Value>) -> (res:
    serde_json::Value)
    ensures
        json_model(res) == JsonModel::Object(object_entries(map)),
{
    serde_json::Value::Object(map)
}

} // verus!

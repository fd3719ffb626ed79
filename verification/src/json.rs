use crate::string_map::{distinct_keys, entries_map, lemma_entries_map_pointwise, StringMap};
use crate::text::{text_lists, text_values, texts};
use rustc_serialize::json::Json;
use rustc_serialize::json::ToJson;
use vstd::prelude::*;

verus! {

/// `Json` of rustc-serialize: a JSON value. Nothing of its inside is visible
/// to the verifier; `json_model` stands for its structure.
#[verifier::external_type_specification]
#[verifier::external_body]
pub struct ExJson(Json);

/// The structure of a JSON value, as far as this library builds such values:
/// whole numbers, strings, arrays, and objects with string keys.
pub enum JsonValue {
    /// A whole number.
    Integer(int),
    /// A string, by its characters.
    Text(Seq<char>),
    /// An array, by its items in their order.
    Array(Seq<JsonValue>),
    /// An object, by the value of each of its keys.
    Object(Map<Seq<char>, JsonValue>),
}

/// The structure of a `Json` value of rustc-serialize. It has no definition
/// here: all that is known of it is what the functions below, which build
/// such values, state of their results.
pub uninterp spec fn json_model(json: Json) -> JsonValue;

/// The compact JSON text that rustc-serialize writes for a value of the given
/// structure. It has no definition here: the encoder of rustc-serialize
/// decides the characters, and `render` states that it returns them.
pub uninterp spec fn json_text(value: JsonValue) -> Seq<char>;

/// The structure of each value of a sequence.
pub open spec fn json_models(items: Seq<Json>) -> Seq<JsonValue> {
    items.map_values(|json: Json| json_model(json))
}

/// The object members that a sequence of entries stands for.
pub open spec fn entry_models(entries: Seq<(String, Json)>) -> Map<Seq<char>, JsonValue> {
    entries_map(entries).map_values(|json: Json| json_model(json))
}

/// The array of the given strings.
pub open spec fn text_array(items: Seq<Seq<char>>) -> JsonValue {
    JsonValue::Array(items.map_values(|s: Seq<char>| JsonValue::Text(s)))
}

/// The array of the given numbers.
pub open spec fn integer_array(items: Seq<i64>) -> JsonValue {
    JsonValue::Array(items.map_values(|n: i64| JsonValue::Integer(n as int)))
}

/// The object with one string member for each entry of the mapping.
pub open spec fn text_object(members: Map<Seq<char>, Seq<char>>) -> JsonValue {
    JsonValue::Object(members.map_values(|s: Seq<char>| JsonValue::Text(s)))
}

/// The object with one array of strings for each entry of the mapping.
pub open spec fn text_array_object(members: Map<Seq<char>, Seq<Seq<char>>>) -> JsonValue {
    JsonValue::Object(members.map_values(|items: Seq<Seq<char>>| text_array(items)))
}

/// Calls `ToJson::to_json` of rustc-serialize on a `String`, which wraps a
/// copy of the string in `Json::String`: the result is a JSON string with the
/// same characters.
#[verifier::external_body]
pub(crate) fn text_json(s: &String) -> (json: Json)
    ensures
        json_model(json) == JsonValue::Text(s@),
{
    s.to_json()
}

/// Calls `ToJson::to_json` of rustc-serialize on an `i64`, which wraps the
/// number in `Json::I64`: the result is a JSON number with the same value.
#[verifier::external_body]
pub(crate) fn integer_json(n: i64) -> (json: Json)
    ensures
        json_model(json) == JsonValue::Integer(n as int),
{
    n.to_json()
}

/// Builds `Json::Array` of rustc-serialize from its items: the result is the
/// JSON array of these items, in their order.
#[verifier::external_body]
pub(crate) fn array_json(items: Vec<Json>) -> (json: Json)
    ensures
        json_model(json) == JsonValue::Array(json_models(items@)),
{
    Json::Array(items)
}

/// Builds `Json::Object` of rustc-serialize, which holds a `BTreeMap` from
/// keys to values, from entries that are collected into that map. No two
/// entries may have the same key, so that the map keeps each of them: the
/// result is the JSON object with one member for each entry.
#[verifier::external_body]
pub(crate) fn object_json(entries: Vec<(String, Json)>) -> (json: Json)
    requires
        distinct_keys(entries@),
    ensures
        json_model(json) == JsonValue::Object(entry_models(entries@)),
{
    Json::Object(entries.into_iter().collect())
}

/// Calls `to_string` on a `Json` of rustc-serialize, whose `Display` runs the
/// compact encoder: the result is the JSON text of the value, which depends on
/// the value's structure alone. An object without members is written as `{}`.
#[verifier::external_body]
pub(crate) fn render(json: &Json) -> (text: String)
    ensures
        text@ == json_text(json_model(*json)),
        json_model(*json) == JsonValue::Object(Map::empty()) ==> text@ == "{}"@,
{
    json.to_string()
}

/// The JSON array of the given strings.
pub fn strings_json(items: &Vec<String>) -> (json: Json)
    ensures
        json_model(json) == text_array(texts(items@)),
{
    let mut out: Vec<Json> = Vec::new();
    let mut i: usize = 0;
    while i < items.len()
        invariant
            i <= items@.len(),
            out@.len() == i,
            forall|j: int| 0 <= j < i ==> json_model(#[trigger] out@[j]) == JsonValue::Text(items@[j]@),
        decreases items@.len() - i,
    {
        out.push(text_json(&items[i]));
        i += 1;
    }
    proof {
        assert(json_models(out@) =~= texts(items@).map_values(|s: Seq<char>| JsonValue::Text(s)));
    }
    array_json(out)
}

/// The JSON array of the given numbers.
pub fn integers_json(items: &Vec<i64>) -> (json: Json)
    ensures
        json_model(json) == integer_array(items@),
{
    let mut out: Vec<Json> = Vec::new();
    let mut i: usize = 0;
    while i < items.len()
        invariant
            i <= items@.len(),
            out@.len() == i,
            forall|j: int| 0 <= j < i ==> json_model(#[trigger] out@[j]) == JsonValue::Integer(items@[j] as int),
        decreases items@.len() - i,
    {
        out.push(integer_json(items[i]));
        i += 1;
    }
    proof {
        assert(json_models(out@) =~= items@.map_values(|n: i64| JsonValue::Integer(n as int)));
    }
    array_json(out)
}

/// The JSON object with one string member for each entry of the map.
pub fn string_map_json(members: &StringMap<String>) -> (json: Json)
    ensures
        json_model(json) == text_object(text_values(members@)),
{
    let entries = members.entries();
    let mut out: Vec<(String, Json)> = Vec::new();
    let mut i: usize = 0;
    while i < entries.len()
        invariant
            i <= entries@.len(),
            out@.len() == i,
            forall|j: int|
                0 <= j < i ==> (#[trigger] out@[j]).0@ == entries@[j].0@ && json_model(out@[j].1)
                    == JsonValue::Text(entries@[j].1@),
        decreases entries@.len() - i,
    {
        out.push((entries[i].0.clone(), text_json(&entries[i].1)));
        i += 1;
    }
    proof {
        lemma_entries_map_pointwise(
            out@,
            entries@,
            |json: Json| json_model(json),
            |s: String| JsonValue::Text(s@),
        );
        assert(entry_models(out@) =~= text_values(members@).map_values(
            |s: Seq<char>| JsonValue::Text(s),
        ));
    }
    object_json(out)
}

/// The JSON object with one array of strings for each entry of the map.
pub fn string_lists_json(members: &StringMap<Vec<String>>) -> (json: Json)
    ensures
        json_model(json) == text_array_object(text_lists(members@)),
{
    let entries = members.entries();
    let mut out: Vec<(String, Json)> = Vec::new();
    let mut i: usize = 0;
    while i < entries.len()
        invariant
            i <= entries@.len(),
            out@.len() == i,
            forall|j: int|
                0 <= j < i ==> (#[trigger] out@[j]).0@ == entries@[j].0@ && json_model(out@[j].1)
                    == text_array(texts(entries@[j].1@)),
        decreases entries@.len() - i,
    {
        out.push((entries[i].0.clone(), strings_json(&entries[i].1)));
        i += 1;
    }
    proof {
        lemma_entries_map_pointwise(
            out@,
            entries@,
            |json: Json| json_model(json),
            |list: Vec<String>| text_array(texts(list@)),
        );
        assert(entry_models(out@) =~= text_lists(members@).map_values(
            |items: Seq<Seq<char>>| text_array(items),
        ));
    }
    object_json(out)
}

} // verus!

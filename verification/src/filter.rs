use crate::json::{
    entry_models, json_model, json_text, object_json, render, string_map_json, text_object,
    JsonValue,
};
use crate::string_map::{lemma_entries_map_pointwise, lemma_map_values_empty, StringMap};
use crate::text::{text_values, IntoText};
use rustc_serialize::json::Json;
use vstd::prelude::*;

verus! {

/// The settings of one named filter: a mapping from setting names to values.
#[derive(Debug)]
pub struct Filter {
    settings: StringMap<String>,
}

impl View for Filter {
    type V = Map<Seq<char>, Seq<char>>;

    closed spec fn view(&self) -> Map<Seq<char>, Seq<char>> {
        text_values(self.settings@)
    }
}

/// The JSON form of a filter with the given settings: an object whose one
/// member, `settings`, holds them; without settings, an object without members.
pub open spec fn filter_json(settings: Map<Seq<char>, Seq<char>>) -> JsonValue {
    if settings.is_empty() {
        JsonValue::Object(Map::empty())
    } else {
        JsonValue::Object(map!["settings"@ => text_object(settings)])
    }
}

/// The settings of each filter of a mapping.
pub open spec fn filter_views(filters: Map<Seq<char>, Filter>) -> Map<
    Seq<char>,
    Map<Seq<char>, Seq<char>>,
> {
    filters.map_values(|filter: Filter| filter@)
}

/// The JSON object with one member for each named filter of the mapping.
pub open spec fn filters_object(filters: Map<Seq<char>, Map<Seq<char>, Seq<char>>>) -> JsonValue {
    JsonValue::Object(filters.map_values(|settings: Map<Seq<char>, Seq<char>>| filter_json(settings)))
}

impl Filter {
    /// A filter without settings.
    pub fn new() -> (filter: Filter)
        ensures
            filter@ == Map::<Seq<char>, Seq<char>>::empty(),
    {
        Filter { settings: StringMap::new() }
    }

    /// Sets `setting` to `value`, in place of any value it had.
    pub fn add_setting<S: IntoText>(&mut self, setting: S, value: S) -> (ret: &mut Filter)
        ensures
            ret@ == old(self)@.insert(setting.text(), value.text()),
            *final(self) == *final(ret),
    {
        self.settings.insert(setting.into_text(), value.into_text());
        self
    }

    /// The settings.
    pub fn settings(&self) -> (settings: &StringMap<String>)
        ensures
            text_values(settings@) == self@,
    {
        &self.settings
    }

    /// The filter as a JSON value.
    pub fn to_json(&self) -> (json: Json)
        ensures
            json_model(json) == filter_json(self@),
    {
        let mut members: StringMap<Json> = StringMap::new();
        if !self.settings.is_empty() {
            members.insert("settings".to_owned(), string_map_json(&self.settings));
        }
        let entries = members.into_entries();
        proof {
            lemma_map_values_empty(self.settings@, |s: String| s@);
            assert(entry_models(entries@) =~= filter_json(self@)->Object_0);
        }
        object_json(entries)
    }

    /// The filter as JSON text.
    pub fn to_string(&self) -> (text: String)
        ensures
            text@ == json_text(filter_json(self@)),
            self@.is_empty() ==> text@ == "{}"@,
    {
        render(&self.to_json())
    }
}

/// The JSON object with one member for each named filter of the map.
pub fn filters_json(filters: &StringMap<Filter>) -> (json: Json)
    ensures
        json_model(json) == filters_object(filter_views(filters@)),
{
    let entries = filters.entries();
    let mut out: Vec<(String, Json)> = Vec::new();
    let mut i: usize = 0;
    while i < entries.len()
        invariant
            i <= entries@.len(),
            out@.len() == i,
            forall|j: int|
                0 <= j < i ==> (#[trigger] out@[j]).0@ == entries@[j].0@ && json_model(out@[j].1)
                    == filter_json(entries@[j].1@),
        decreases entries@.len() - i,
    {
        out.push((entries[i].0.clone(), entries[i].1.to_json()));
        i += 1;
    }
    proof {
        lemma_entries_map_pointwise(
            out@,
            entries@,
            |json: Json| json_model(json),
            |filter: Filter| filter_json(filter@),
        );
        assert(entry_models(out@) =~= filter_views(filters@).map_values(
            |settings: Map<Seq<char>, Seq<char>>| filter_json(settings),
        ));
    }
    object_json(out)
}

} // verus!

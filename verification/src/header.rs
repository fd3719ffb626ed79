use crate::filter::{filter_views, filters_json, Filter};
use crate::header_view::{lemma_member_keys_differ, HeaderView};
use crate::json::{
    entry_models, integer_json, integers_json, json_model, json_text, object_json, render,
    string_lists_json, string_map_json, strings_json, text_json, JsonValue,
};
use crate::string_map::{lemma_map_values_empty, StringMap};
use crate::text::{append_texts, text_lists, text_values, texts, texts_of, IntoText};
use rustc_serialize::json::Json;
use vstd::prelude::*;

verus! {

/// When to send. The two ways to schedule exclude each other, so a header
/// holds at most one of them.
#[derive(Debug)]
enum Schedule {
    Unset,
    At(i64),
    EachAt(Vec<i64>),
}

/// The metadata that goes with an outgoing message: recipients,
/// substitutions, sections, categories, custom arguments, filters, and
/// directives on when and from where to send.
#[derive(Debug)]
pub struct Header {
    to: Vec<String>,
    sub: StringMap<Vec<String>>,
    section: StringMap<String>,
    categories: Vec<String>,
    unique_args: StringMap<String>,
    filters: StringMap<Filter>,
    asm_group_id: Option<i32>,
    schedule: Schedule,
    ip_pool: Option<String>,
}

impl View for Header {
    type V = HeaderView;

    closed spec fn view(&self) -> HeaderView {
        HeaderView {
            to: texts(self.to@),
            sub: text_lists(self.sub@),
            section: text_values(self.section@),
            categories: texts(self.categories@),
            unique_args: text_values(self.unique_args@),
            filters: filter_views(self.filters@),
            asm_group_id: self.asm_group_id,
            send_at: match self.schedule {
                Schedule::At(timestamp) => Some(timestamp),
                _ => None,
            },
            send_each_at: match self.schedule {
                Schedule::EachAt(timestamps) => Some(timestamps@),
                _ => None,
            },
            ip_pool: match self.ip_pool {
                Some(name) => Some(name@),
                None => None,
            },
        }
    }
}

impl Header {
    /// A header that holds nothing.
    pub fn new() -> (header: Header)
        ensures
            header@ == HeaderView::empty(),
    {
        let header = Header {
            to: Vec::new(),
            sub: StringMap::new(),
            section: StringMap::new(),
            categories: Vec::new(),
            unique_args: StringMap::new(),
            filters: StringMap::new(),
            asm_group_id: None,
            schedule: Schedule::Unset,
            ip_pool: None,
        };
        proof {
            assert(header@.to =~= Seq::<Seq<char>>::empty());
            assert(header@.categories =~= Seq::<Seq<char>>::empty());
            assert(header@.sub =~= Map::<Seq<char>, Seq<Seq<char>>>::empty());
            assert(header@.section =~= Map::<Seq<char>, Seq<char>>::empty());
            assert(header@.unique_args =~= Map::<Seq<char>, Seq<char>>::empty());
            assert(header@.filters =~= Map::<Seq<char>, Map<Seq<char>, Seq<char>>>::empty());
        }
        header
    }

    /// Appends one recipient.
    pub fn add_to<S: IntoText>(&mut self, email: S) -> (ret: &mut Header)
        ensures
            ret@ == old(self)@.add_to(email.text()),
            *final(self) == *final(ret),
    {
        let ghost before = self.to@;
        let email = email.into_text();
        self.to.push(email);
        proof {
            assert(texts(self.to@) =~= texts(before).push(email@));
        }
        self
    }

    /// Appends recipients, in their order.
    pub fn add_tos<S: IntoText>(&mut self, emails: Vec<S>) -> (ret: &mut Header)
        ensures
            ret@ == old(self)@.add_tos(texts_of(emails@)),
            *final(self) == *final(ret),
    {
        append_texts(&mut self.to, emails);
        self
    }

    /// Puts the given recipients in place of those that the header had.
    pub fn set_tos<S: IntoText>(&mut self, emails: Vec<S>) -> (ret: &mut Header)
        ensures
            ret@ == old(self)@.set_tos(texts_of(emails@)),
            *final(self) == *final(ret),
    {
        self.to = Vec::new();
        append_texts(&mut self.to, emails);
        self
    }

    /// Appends `sub` to the values of the substitution tag `key`; a tag that
    /// was not there begins with this one value.
    pub fn add_substitution<S: IntoText>(&mut self, key: S, sub: S) -> (ret: &mut Header)
        ensures
            ret@ == old(self)@.add_substitution(key.text(), sub.text()),
            *final(self) == *final(ret),
    {
        let ghost before = self.sub@;
        let key = key.into_text();
        let sub = sub.into_text();
        let mut values = match self.sub.remove(key.as_str()) {
            Some(values) => values,
            None => Vec::new(),
        };
        let ghost had = values@;
        values.push(sub);
        self.sub.insert(key, values);
        proof {
            assert(texts(values@) =~= texts(had).push(sub@));
            assert(texts(had) =~= old(self)@.substitutions(key@));
            assert(text_lists(before.remove(key@).insert(key@, values)) =~= text_lists(
                before,
            ).insert(key@, texts(values@)));
        }
        self
    }

    /// Appends `subs`, in their order, to the values of the substitution tag
    /// `key`; a tag that was not there begins with these values.
    pub fn add_substitutions<S: IntoText>(&mut self, key: S, subs: Vec<&str>) -> (ret: &mut Header)
        ensures
            ret@ == old(self)@.add_substitutions(key.text(), texts_of(subs@)),
            *final(self) == *final(ret),
    {
        let ghost before = self.sub@;
        let key = key.into_text();
        let mut values = match self.sub.remove(key.as_str()) {
            Some(values) => values,
            None => Vec::new(),
        };
        append_texts(&mut values, subs);
        self.sub.insert(key, values);
        proof {
            assert(text_lists(before.remove(key@).insert(key@, values)) =~= text_lists(
                before,
            ).insert(key@, texts(values@)));
        }
        self
    }

    /// Puts the given substitutions in place of those that the header had.
    pub fn set_substitutions(&mut self, subs: StringMap<Vec<String>>) -> (ret: &mut Header)
        ensures
            ret@ == old(self)@.set_substitutions(text_lists(subs@)),
            *final(self) == *final(ret),
    {
        self.sub = subs;
        self
    }

    /// Sets the replacement text of the section tag `section`.
    pub fn add_section<S: IntoText>(&mut self, section: S, value: S) -> (ret: &mut Header)
        ensures
            ret@ == old(self)@.add_section(section.text(), value.text()),
            *final(self) == *final(ret),
    {
        let ghost before = self.section@;
        let section = section.into_text();
        let value = value.into_text();
        self.section.insert(section, value);
        proof {
            assert(text_values(before.insert(section@, value)) =~= text_values(before).insert(
                section@,
                value@,
            ));
        }
        self
    }

    /// Puts the given sections in place of those that the header had.
    pub fn set_sections(&mut self, sections: StringMap<String>) -> (ret: &mut Header)
        ensures
            ret@ == old(self)@.set_sections(text_values(sections@)),
            *final(self) == *final(ret),
    {
        self.section = sections;
        self
    }

    /// Appends one category.
    pub fn add_category<S: IntoText>(&mut self, category: S) -> (ret: &mut Header)
        ensures
            ret@ == old(self)@.add_category(category.text()),
            *final(self) == *final(ret),
    {
        let ghost before = self.categories@;
        let category = category.into_text();
        self.categories.push(category);
        proof {
            assert(texts(self.categories@) =~= texts(before).push(category@));
        }
        self
    }

    /// Appends categories, in their order.
    pub fn add_categories<S: IntoText>(&mut self, categories: Vec<S>) -> (ret: &mut Header)
        ensures
            ret@ == old(self)@.add_categories(texts_of(categories@)),
            *final(self) == *final(ret),
    {
        append_texts(&mut self.categories, categories);
        self
    }

    /// Puts the given categories in place of those that the header had.
    pub fn set_categories<S: IntoText>(&mut self, categories: Vec<S>) -> (ret: &mut Header)
        ensures
            ret@ == old(self)@.set_categories(texts_of(categories@)),
            *final(self) == *final(ret),
    {
        self.categories = Vec::new();
        append_texts(&mut self.categories, categories);
        self
    }

    /// Sets the custom argument `unique_arg`.
    pub fn add_unique_arg<S: IntoText>(&mut self, unique_arg: S, value: S) -> (ret: &mut Header)
        ensures
            ret@ == old(self)@.add_unique_arg(unique_arg.text(), value.text()),
            *final(self) == *final(ret),
    {
        let ghost before = self.unique_args@;
        let unique_arg = unique_arg.into_text();
        let value = value.into_text();
        self.unique_args.insert(unique_arg, value);
        proof {
            assert(text_values(before.insert(unique_arg@, value)) =~= text_values(before).insert(
                unique_arg@,
                value@,
            ));
        }
        self
    }

    /// Puts the given custom arguments in place of those that the header had.
    pub fn set_unique_args(&mut self, unique_args: StringMap<String>) -> (ret: &mut Header)
        ensures
            ret@ == old(self)@.set_unique_args(text_values(unique_args@)),
            *final(self) == *final(ret),
    {
        self.unique_args = unique_args;
        self
    }

    /// Sets `setting` of the filter `filter_name`, in place of any value it
    /// had; a filter that was not there begins with this one setting.
    pub fn add_filter<S: IntoText>(&mut self, filter_name: S, setting: S, value: S) -> (ret:
        &mut Header)
        ensures
            ret@ == old(self)@.add_filter(filter_name.text(), setting.text(), value.text()),
            *final(self) == *final(ret),
    {
        let ghost before = self.filters@;
        let filter_name = filter_name.into_text();
        let mut filter = match self.filters.remove(filter_name.as_str()) {
            Some(filter) => filter,
            None => Filter::new(),
        };
        filter.add_setting(setting, value);
        self.filters.insert(filter_name, filter);
        proof {
            assert(filter_views(before.remove(filter_name@).insert(filter_name@, filter))
                =~= filter_views(before).insert(filter_name@, filter@));
        }
        self
    }

    /// Puts `setting` in place of the filter `filter`, or adds it.
    pub fn set_filter<S: IntoText>(&mut self, filter: S, setting: Filter) -> (ret: &mut Header)
        ensures
            ret@ == old(self)@.set_filter(filter.text(), setting@),
            *final(self) == *final(ret),
    {
        let ghost before = self.filters@;
        let filter = filter.into_text();
        self.filters.insert(filter, setting);
        proof {
            assert(filter_views(before.insert(filter@, setting)) =~= filter_views(before).insert(
                filter@,
                setting@,
            ));
        }
        self
    }

    /// Sets the pool of addresses to send from.
    pub fn set_ip_pool<S: IntoText>(&mut self, name: S) -> (ret: &mut Header)
        ensures
            ret@ == old(self)@.set_ip_pool(name.text()),
            *final(self) == *final(ret),
    {
        self.ip_pool = Some(name.into_text());
        self
    }

    /// Sets the unsubscribe group.
    pub fn set_asm_group_id(&mut self, asm_group_id: i32) -> (ret: &mut Header)
        ensures
            ret@ == old(self)@.set_asm_group_id(asm_group_id),
            *final(self) == *final(ret),
    {
        self.asm_group_id = Some(asm_group_id);
        self
    }

    /// Sets the one time at which to send, and drops the times per recipient.
    pub fn set_send_at(&mut self, send_at: i64) -> (ret: &mut Header)
        ensures
            ret@ == old(self)@.set_send_at(send_at),
            *final(self) == *final(ret),
    {
        self.schedule = Schedule::At(send_at);
        self
    }

    /// Appends to the times per recipient, if the header has such times, and
    /// drops the one time at which to send. A header without times per
    /// recipient gets none by this call: `set_send_each_at` begins them.
    pub fn add_send_each_at(&mut self, send_at: i64) -> (ret: &mut Header)
        ensures
            ret@ == old(self)@.add_send_each_at(send_at),
            *final(self) == *final(ret),
    {
        let mut schedule = Schedule::Unset;
        std::mem::swap(&mut schedule, &mut self.schedule);
        self.schedule = match schedule {
            Schedule::EachAt(mut timestamps) => {
                timestamps.push(send_at);
                Schedule::EachAt(timestamps)
            },
            _ => Schedule::Unset,
        };
        self
    }

    /// Sets the times per recipient, and drops the one time at which to send.
    /// An empty list is kept, so that `add_send_each_at` appends to it; the
    /// JSON form has a key for the times only once there is one.
    pub fn set_send_each_at(&mut self, send_each_at: Vec<i64>) -> (ret: &mut Header)
        ensures
            ret@ == old(self)@.set_send_each_at(send_each_at@),
            *final(self) == *final(ret),
    {
        self.schedule = Schedule::EachAt(send_each_at);
        self
    }

    /// The header as a JSON value: an object with a member for each field
    /// that is neither empty nor absent.
    pub fn to_json(&self) -> (json: Json)
        ensures
            json_model(json) == self@.json(),
    {
        let mut members: StringMap<Json> = StringMap::new();
        if !self.to.is_empty() {
            members.insert("to".to_owned(), strings_json(&self.to));
        }
        if !self.sub.is_empty() {
            members.insert("sub".to_owned(), string_lists_json(&self.sub));
        }
        if !self.section.is_empty() {
            members.insert("section".to_owned(), string_map_json(&self.section));
        }
        if !self.categories.is_empty() {
            members.insert("category".to_owned(), strings_json(&self.categories));
        }
        if !self.unique_args.is_empty() {
            members.insert("unique_args".to_owned(), string_map_json(&self.unique_args));
        }
        if !self.filters.is_empty() {
            members.insert("filters".to_owned(), filters_json(&self.filters));
        }
        if let Some(id) = self.asm_group_id {
            members.insert("asm_group_id".to_owned(), integer_json(id as i64));
        }
        match &self.schedule {
            Schedule::At(timestamp) => {
                members.insert("send_at".to_owned(), integer_json(*timestamp));
            },
            Schedule::EachAt(timestamps) => {
                if !timestamps.is_empty() {
                    members.insert("send_each_at".to_owned(), integers_json(timestamps));
                }
            },
            Schedule::Unset => {},
        }
        if let Some(name) = &self.ip_pool {
            members.insert("ip_pool".to_owned(), text_json(name));
        }
        let entries = members.into_entries();
        proof {
            lemma_member_keys_differ();
            lemma_map_values_empty(self.sub@, |list: Vec<String>| texts(list@));
            lemma_map_values_empty(self.section@, |s: String| s@);
            lemma_map_values_empty(self.unique_args@, |s: String| s@);
            lemma_map_values_empty(self.filters@, |filter: Filter| filter@);
            assert(entry_models(entries@) =~= self@.members());
        }
        object_json(entries)
    }

    /// The header as JSON text.
    pub fn to_string(&self) -> (text: String)
        ensures
            text@ == json_text(self@.json()),
            self@.members().is_empty() ==> text@ == "{}"@,
    {
        let json = self.to_json();
        proof {
            if self@.members().is_empty() {
                assert(self@.members() =~= Map::<Seq<char>, JsonValue>::empty());
            }
        }
        render(&json)
    }

    /// The recipients.
    pub fn to(&self) -> (to: &Vec<String>)
        ensures
            texts(to@) == self@.to,
    {
        &self.to
    }

    /// The substitutions.
    pub fn sub(&self) -> (sub: &StringMap<Vec<String>>)
        ensures
            text_lists(sub@) == self@.sub,
    {
        &self.sub
    }

    /// The sections.
    pub fn section(&self) -> (section: &StringMap<String>)
        ensures
            text_values(section@) == self@.section,
    {
        &self.section
    }

    /// The categories.
    pub fn categories(&self) -> (categories: &Vec<String>)
        ensures
            texts(categories@) == self@.categories,
    {
        &self.categories
    }

    /// The custom arguments.
    pub fn unique_args(&self) -> (unique_args: &StringMap<String>)
        ensures
            text_values(unique_args@) == self@.unique_args,
    {
        &self.unique_args
    }

    /// The filters.
    pub fn filters(&self) -> (filters: &StringMap<Filter>)
        ensures
            filter_views(filters@) == self@.filters,
    {
        &self.filters
    }

    /// The unsubscribe group, if one is set.
    pub fn asm_group_id(&self) -> (id: Option<i32>)
        ensures
            id == self@.asm_group_id,
    {
        self.asm_group_id
    }

    /// The one time at which to send, if one is set.
    pub fn send_at(&self) -> (send_at: Option<i64>)
        ensures
            send_at == self@.send_at,
    {
        match &self.schedule {
            Schedule::At(timestamp) => Some(*timestamp),
            _ => None,
        }
    }

    /// The times per recipient, if they are set.
    pub fn send_each_at(&self) -> (send_each_at: Option<&Vec<i64>>)
        ensures
            match send_each_at {
                Some(timestamps) => self@.send_each_at == Some(timestamps@),
                None => self@.send_each_at is None,
            },
    {
        match &self.schedule {
            Schedule::EachAt(timestamps) => Some(timestamps),
            _ => None,
        }
    }

    /// The pool of addresses to send from, if one is set.
    pub fn ip_pool(&self) -> (ip_pool: Option<&String>)
        ensures
            match ip_pool {
                Some(name) => self@.ip_pool == Some(name@),
                None => self@.ip_pool is None,
            },
    {
        match &self.ip_pool {
            Some(name) => Some(name),
            None => None,
        }
    }

    /// A header never holds both the one time at which to send and the times
    /// per recipient.
    pub proof fn lemma_schedule_exclusive(&self)
        ensures
            self@.schedule_exclusive(),
    {
    }
}

} // verus!

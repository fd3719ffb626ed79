use crate::filter::filters_object;
use crate::json::{integer_array, text_array, text_array_object, text_object, JsonValue};
use vstd::prelude::*;

verus! {

/// What a header holds, as mathematical values.
pub struct HeaderView {
    /// The recipients, in the order in which they were added.
    pub to: Seq<Seq<char>>,
    /// For each substitution tag, its values in the order in which they were added.
    pub sub: Map<Seq<char>, Seq<Seq<char>>>,
    /// For each section tag, its replacement text.
    pub section: Map<Seq<char>, Seq<char>>,
    /// The categories, in the order in which they were added.
    pub categories: Seq<Seq<char>>,
    /// The custom arguments.
    pub unique_args: Map<Seq<char>, Seq<char>>,
    /// For each named filter, its settings.
    pub filters: Map<Seq<char>, Map<Seq<char>, Seq<char>>>,
    /// The unsubscribe group.
    pub asm_group_id: Option<i32>,
    /// The one time at which to send.
    pub send_at: Option<i64>,
    /// The times at which to send, one for each recipient. Times that are
    /// present may still be none: such a list can be appended to, and has no
    /// key in the JSON form.
    pub send_each_at: Option<Seq<i64>>,
    /// The pool of addresses to send from.
    pub ip_pool: Option<Seq<char>>,
}

impl HeaderView {
    /// The header that holds nothing.
    pub open spec fn empty() -> HeaderView {
        HeaderView {
            to: Seq::empty(),
            sub: Map::empty(),
            section: Map::empty(),
            categories: Seq::empty(),
            unique_args: Map::empty(),
            filters: Map::empty(),
            asm_group_id: None,
            send_at: None,
            send_each_at: None,
            ip_pool: None,
        }
    }

    /// Whether at most one of the two ways to schedule is in use.
    pub open spec fn schedule_exclusive(self) -> bool {
        !(self.send_at is Some && self.send_each_at is Some)
    }

    /// The values of a substitution tag; none for a tag that is not there.
    pub open spec fn substitutions(self, tag: Seq<char>) -> Seq<Seq<char>> {
        if self.sub.contains_key(tag) {
            self.sub[tag]
        } else {
            Seq::empty()
        }
    }

    /// The settings of a named filter; none for a filter that is not there.
    pub open spec fn filter_settings(self, name: Seq<char>) -> Map<Seq<char>, Seq<char>> {
        if self.filters.contains_key(name) {
            self.filters[name]
        } else {
            Map::empty()
        }
    }

    /// The header after `add_to`: one more recipient at the end.
    pub open spec fn add_to(self, email: Seq<char>) -> HeaderView {
        HeaderView { to: self.to.push(email), ..self }
    }

    /// The header after `add_tos`: the given recipients at the end.
    pub open spec fn add_tos(self, emails: Seq<Seq<char>>) -> HeaderView {
        HeaderView { to: self.to + emails, ..self }
    }

    /// The header after `set_tos`: the given recipients and no others.
    pub open spec fn set_tos(self, emails: Seq<Seq<char>>) -> HeaderView {
        HeaderView { to: emails, ..self }
    }

    /// The header after `add_substitution`: one more value at the end of the
    /// values of the tag.
    pub open spec fn add_substitution(self, tag: Seq<char>, value: Seq<char>) -> HeaderView {
        HeaderView { sub: self.sub.insert(tag, self.substitutions(tag).push(value)), ..self }
    }

    /// The header after `add_substitutions`: the given values at the end of the
    /// values of the tag.
    pub open spec fn add_substitutions(self, tag: Seq<char>, values: Seq<Seq<char>>) -> HeaderView {
        HeaderView { sub: self.sub.insert(tag, self.substitutions(tag) + values), ..self }
    }

    /// The header after `set_substitutions`: the given substitutions and no others.
    pub open spec fn set_substitutions(self, sub: Map<Seq<char>, Seq<Seq<char>>>) -> HeaderView {
        HeaderView { sub, ..self }
    }

    /// The header after `add_section`: the tag has the given text.
    pub open spec fn add_section(self, tag: Seq<char>, value: Seq<char>) -> HeaderView {
        HeaderView { section: self.section.insert(tag, value), ..self }
    }

    /// The header after `set_sections`: the given sections and no others.
    pub open spec fn set_sections(self, section: Map<Seq<char>, Seq<char>>) -> HeaderView {
        HeaderView { section, ..self }
    }

    /// The header after `add_category`: one more category at the end.
    pub open spec fn add_category(self, category: Seq<char>) -> HeaderView {
        HeaderView { categories: self.categories.push(category), ..self }
    }

    /// The header after `add_categories`: the given categories at the end.
    pub open spec fn add_categories(self, categories: Seq<Seq<char>>) -> HeaderView {
        HeaderView { categories: self.categories + categories, ..self }
    }

    /// The header after `set_categories`: the given categories and no others.
    pub open spec fn set_categories(self, categories: Seq<Seq<char>>) -> HeaderView {
        HeaderView { categories, ..self }
    }

    /// The header after `add_unique_arg`: the key has the given value.
    pub open spec fn add_unique_arg(self, key: Seq<char>, value: Seq<char>) -> HeaderView {
        HeaderView { unique_args: self.unique_args.insert(key, value), ..self }
    }

    /// The header after `set_unique_args`: the given arguments and no others.
    pub open spec fn set_unique_args(self, unique_args: Map<Seq<char>, Seq<char>>) -> HeaderView {
        HeaderView { unique_args, ..self }
    }

    /// The header after `add_filter`: the named filter has the given setting,
    /// besides those it had.
    pub open spec fn add_filter(
        self,
        name: Seq<char>,
        setting: Seq<char>,
        value: Seq<char>,
    ) -> HeaderView {
        HeaderView {
            filters: self.filters.insert(name, self.filter_settings(name).insert(setting, value)),
            ..self
        }
    }

    /// The header after `set_filter`: the named filter has the given settings
    /// and no others.
    pub open spec fn set_filter(
        self,
        name: Seq<char>,
        settings: Map<Seq<char>, Seq<char>>,
    ) -> HeaderView {
        HeaderView { filters: self.filters.insert(name, settings), ..self }
    }

    /// The header after `set_ip_pool`.
    pub open spec fn set_ip_pool(self, name: Seq<char>) -> HeaderView {
        HeaderView { ip_pool: Some(name), ..self }
    }

    /// The header after `set_asm_group_id`.
    pub open spec fn set_asm_group_id(self, id: i32) -> HeaderView {
        HeaderView { asm_group_id: Some(id), ..self }
    }

    /// The header after `set_send_at`: the one time is set, and the times per
    /// recipient are absent.
    pub open spec fn set_send_at(self, timestamp: i64) -> HeaderView {
        HeaderView { send_at: Some(timestamp), send_each_at: None, ..self }
    }

    /// The header after `add_send_each_at`: one more time at the end of the
    /// times per recipient where there are such times, none where there are
    /// none; the one time is absent either way.
    pub open spec fn add_send_each_at(self, timestamp: i64) -> HeaderView {
        HeaderView {
            send_at: None,
            send_each_at: match self.send_each_at {
                Some(timestamps) => Some(timestamps.push(timestamp)),
                None => None,
            },
            ..self
        }
    }

    /// The header after `set_send_each_at`: the times per recipient are set,
    /// and the one time is absent.
    pub open spec fn set_send_each_at(self, timestamps: Seq<i64>) -> HeaderView {
        HeaderView { send_at: None, send_each_at: Some(timestamps), ..self }
    }

    /// The value under `key` in the JSON form of the header, or `None` where
    /// the JSON form has no such key. A field that is empty or absent has no key.
    pub open spec fn member(self, key: Seq<char>) -> Option<JsonValue> {
        if key == "to"@ {
            if self.to.len() > 0 {
                Some(text_array(self.to))
            } else {
                None
            }
        } else if key == "sub"@ {
            if self.sub.is_empty() {
                None
            } else {
                Some(text_array_object(self.sub))
            }
        } else if key == "section"@ {
            if self.section.is_empty() {
                None
            } else {
                Some(text_object(self.section))
            }
        } else if key == "category"@ {
            if self.categories.len() > 0 {
                Some(text_array(self.categories))
            } else {
                None
            }
        } else if key == "unique_args"@ {
            if self.unique_args.is_empty() {
                None
            } else {
                Some(text_object(self.unique_args))
            }
        } else if key == "filters"@ {
            if self.filters.is_empty() {
                None
            } else {
                Some(filters_object(self.filters))
            }
        } else if key == "asm_group_id"@ {
            match self.asm_group_id {
                Some(id) => Some(JsonValue::Integer(id as int)),
                None => None,
            }
        } else if key == "send_at"@ {
            match self.send_at {
                Some(timestamp) => Some(JsonValue::Integer(timestamp as int)),
                None => None,
            }
        } else if key == "send_each_at"@ {
            match self.send_each_at {
                Some(timestamps) => if timestamps.len() > 0 {
                    Some(integer_array(timestamps))
                } else {
                    None
                },
                None => None,
            }
        } else if key == "ip_pool"@ {
            match self.ip_pool {
                Some(name) => Some(JsonValue::Text(name)),
                None => None,
            }
        } else {
            None
        }
    }

    /// The members of the JSON form of the header.
    pub open spec fn members(self) -> Map<Seq<char>, JsonValue> {
        Map::new(|key: Seq<char>| self.member(key) is Some, |key: Seq<char>| self.member(key)->0)
    }

    /// The JSON form of the header: an object with a member for each field that
    /// is neither empty nor absent.
    pub open spec fn json(self) -> JsonValue {
        JsonValue::Object(self.members())
    }
}

/// The ten keys of the JSON form of a header differ from one another: their
/// lengths, or a character at some place, tell them apart.
pub proof fn lemma_member_keys_differ()
    ensures
        "to"@.len() == 2,
        "sub"@.len() == 3,
        "category"@.len() == 8,
        "unique_args"@.len() == 11,
        "section"@.len() == 7 && "section"@[2] == 'c',
        "send_at"@.len() == 7 && "send_at"@[2] == 'n',
        "filters"@.len() == 7 && "filters"@[0] == 'f',
        "ip_pool"@.len() == 7 && "ip_pool"@[0] == 'i',
        "section"@[0] == 's' && "send_at"@[0] == 's',
        "asm_group_id"@.len() == 12 && "asm_group_id"@[0] == 'a',
        "send_each_at"@.len() == 12 && "send_each_at"@[0] == 's',
{
    reveal_strlit("to");
    reveal_strlit("sub");
    reveal_strlit("section");
    reveal_strlit("category");
    reveal_strlit("unique_args");
    reveal_strlit("filters");
    reveal_strlit("asm_group_id");
    reveal_strlit("send_at");
    reveal_strlit("send_each_at");
    reveal_strlit("ip_pool");
}

} // verus!

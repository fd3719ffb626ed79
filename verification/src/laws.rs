use crate::header_view::{lemma_member_keys_differ, HeaderView};
use crate::json::{integer_array, text_array, text_array_object, JsonValue};
use vstd::prelude::*;

verus! {

/// One call of a method that changes a header.
pub enum Mutation {
    AddTo(Seq<char>),
    AddTos(Seq<Seq<char>>),
    SetTos(Seq<Seq<char>>),
    AddSubstitution(Seq<char>, Seq<char>),
    AddSubstitutions(Seq<char>, Seq<Seq<char>>),
    SetSubstitutions(Map<Seq<char>, Seq<Seq<char>>>),
    AddSection(Seq<char>, Seq<char>),
    SetSections(Map<Seq<char>, Seq<char>>),
    AddCategory(Seq<char>),
    AddCategories(Seq<Seq<char>>),
    SetCategories(Seq<Seq<char>>),
    AddUniqueArg(Seq<char>, Seq<char>),
    SetUniqueArgs(Map<Seq<char>, Seq<char>>),
    AddFilter(Seq<char>, Seq<char>, Seq<char>),
    SetFilter(Seq<char>, Map<Seq<char>, Seq<char>>),
    SetIpPool(Seq<char>),
    SetAsmGroupId(i32),
    SetSendAt(i64),
    AddSendEachAt(i64),
    SetSendEachAt(Seq<i64>),
}

/// The header after the given call.
pub open spec fn apply(header: HeaderView, call: Mutation) -> HeaderView {
    match call {
        Mutation::AddTo(email) => header.add_to(email),
        Mutation::AddTos(emails) => header.add_tos(emails),
        Mutation::SetTos(emails) => header.set_tos(emails),
        Mutation::AddSubstitution(tag, value) => header.add_substitution(tag, value),
        Mutation::AddSubstitutions(tag, values) => header.add_substitutions(tag, values),
        Mutation::SetSubstitutions(sub) => header.set_substitutions(sub),
        Mutation::AddSection(tag, value) => header.add_section(tag, value),
        Mutation::SetSections(section) => header.set_sections(section),
        Mutation::AddCategory(category) => header.add_category(category),
        Mutation::AddCategories(categories) => header.add_categories(categories),
        Mutation::SetCategories(categories) => header.set_categories(categories),
        Mutation::AddUniqueArg(key, value) => header.add_unique_arg(key, value),
        Mutation::SetUniqueArgs(unique_args) => header.set_unique_args(unique_args),
        Mutation::AddFilter(name, setting, value) => header.add_filter(name, setting, value),
        Mutation::SetFilter(name, settings) => header.set_filter(name, settings),
        Mutation::SetIpPool(name) => header.set_ip_pool(name),
        Mutation::SetAsmGroupId(id) => header.set_asm_group_id(id),
        Mutation::SetSendAt(timestamp) => header.set_send_at(timestamp),
        Mutation::AddSendEachAt(timestamp) => header.add_send_each_at(timestamp),
        Mutation::SetSendEachAt(timestamps) => header.set_send_each_at(timestamps),
    }
}

/// The header after the given calls, in their order.
pub open spec fn apply_each(header: HeaderView, calls: Seq<Mutation>) -> HeaderView
    decreases calls.len(),
{
    if calls.len() == 0 {
        header
    } else {
        apply(apply_each(header, calls.drop_last()), calls.last())
    }
}

/// The recipients that a call adds: those of `add_to` and `add_tos`, and none
/// for any other call.
pub open spec fn recipients_added(call: Mutation) -> Seq<Seq<char>> {
    match call {
        Mutation::AddTo(email) => seq![email],
        Mutation::AddTos(emails) => emails,
        _ => Seq::empty(),
    }
}

/// The values that a call adds to a substitution tag: those of
/// `add_substitution` and `add_substitutions` for this tag, and none for any
/// other call.
pub open spec fn values_added(call: Mutation, tag: Seq<char>) -> Seq<Seq<char>> {
    match call {
        Mutation::AddSubstitution(t, value) => if t == tag {
            seq![value]
        } else {
            Seq::empty()
        },
        Mutation::AddSubstitutions(t, values) => if t == tag {
            values
        } else {
            Seq::empty()
        },
        _ => Seq::empty(),
    }
}

/// The recipients that the calls add, in call order.
pub open spec fn all_recipients_added(calls: Seq<Mutation>) -> Seq<Seq<char>> {
    calls.map_values(|call: Mutation| recipients_added(call)).flatten()
}

/// The values that the calls add to a substitution tag, in call order.
pub open spec fn all_values_added(calls: Seq<Mutation>, tag: Seq<char>) -> Seq<Seq<char>> {
    calls.map_values(|call: Mutation| values_added(call, tag)).flatten()
}

/// After any calls among which there is no `set_tos`, the recipients are
/// those that the header had, followed by those that the `add_to` and
/// `add_tos` calls added, in call order; and the JSON form lists them so
/// under `to`, or has no `to` where there are none.
pub proof fn lemma_recipients_in_call_order(header: HeaderView, calls: Seq<Mutation>)
    requires
        forall|i: int| 0 <= i < calls.len() ==> !(calls[i] is SetTos),
    ensures
        apply_each(header, calls).to == header.to + all_recipients_added(calls),
        apply_each(header, calls).member("to"@) == if header.to.len() + all_recipients_added(
            calls,
        ).len() > 0 {
            Some(text_array(header.to + all_recipients_added(calls)))
        } else {
            None
        },
    decreases calls.len(),
{
    let added = |call: Mutation| recipients_added(call);
    if calls.len() > 0 {
        let front = calls.drop_last();
        lemma_recipients_in_call_order(header, front);
        assert(calls.map_values(added) =~= front.map_values(added).push(added(calls.last())));
        front.map_values(added).lemma_flatten_push(added(calls.last()));
    }
}

/// `set_tos` leaves none of the recipients that were there: whatever was
/// called before, the recipients are then those given, and the JSON form
/// lists them under `to`, or has no `to` where none is given.
pub proof fn lemma_set_tos_discards(
    header: HeaderView,
    calls: Seq<Mutation>,
    emails: Seq<Seq<char>>,
)
    ensures
        apply_each(header, calls.push(Mutation::SetTos(emails))).to == emails,
        apply_each(header, calls.push(Mutation::SetTos(emails))).member("to"@) == if emails.len()
            > 0 {
            Some(text_array(emails))
        } else {
            None
        },
{
    assert(calls.push(Mutation::SetTos(emails)).drop_last() =~= calls);
}

/// After any calls among which there is no `set_substitutions`, the values of
/// a tag are those that the header had for it, followed by those that the
/// `add_substitution` and `add_substitutions` calls for this tag added, in
/// call order. Where the tag has any value then, the JSON form holds exactly
/// this sequence for the tag under `sub`.
pub proof fn lemma_substitutions_in_call_order(
    header: HeaderView,
    calls: Seq<Mutation>,
    tag: Seq<char>,
)
    requires
        forall|i: int| 0 <= i < calls.len() ==> !(calls[i] is SetSubstitutions),
    ensures
        apply_each(header, calls).substitutions(tag) == header.substitutions(tag)
            + all_values_added(calls, tag),
        header.substitutions(tag).len() + all_values_added(calls, tag).len() > 0 ==> {
            let after = apply_each(header, calls);
            &&& after.sub.contains_key(tag)
            &&& after.member("sub"@) == Some(text_array_object(after.sub))
            &&& text_array_object(after.sub)->Object_0.contains_key(tag)
            &&& text_array_object(after.sub)->Object_0[tag] == text_array(
                header.substitutions(tag) + all_values_added(calls, tag),
            )
        },
    decreases calls.len(),
{
    lemma_member_keys_differ();
    let added = |call: Mutation| values_added(call, tag);
    if calls.len() > 0 {
        let front = calls.drop_last();
        lemma_substitutions_in_call_order(header, front, tag);
        assert(calls.map_values(added) =~= front.map_values(added).push(added(calls.last())));
        front.map_values(added).lemma_flatten_push(added(calls.last()));
        let before = apply_each(header, front).substitutions(tag);
        assert(before + Seq::<Seq<char>>::empty() =~= before);
    }
}

/// Each of the two ways to schedule clears the other: after `set_send_at`
/// followed by `add_send_each_at` or `set_send_each_at` the JSON form has no
/// `send_at`, and after either of these followed by `set_send_at` it has no
/// `send_each_at`.
pub proof fn lemma_schedules_clear_each_other(
    header: HeaderView,
    timestamp: i64,
    other: i64,
    timestamps: Seq<i64>,
)
    ensures
        header.set_send_at(timestamp).add_send_each_at(other).send_at is None,
        header.set_send_at(timestamp).add_send_each_at(other).member("send_at"@) is None,
        header.set_send_at(timestamp).set_send_each_at(timestamps).send_at is None,
        header.set_send_at(timestamp).set_send_each_at(timestamps).member("send_at"@) is None,
        header.add_send_each_at(other).set_send_at(timestamp).send_each_at is None,
        header.add_send_each_at(other).set_send_at(timestamp).member("send_each_at"@) is None,
        header.set_send_each_at(timestamps).set_send_at(timestamp).send_each_at is None,
        header.set_send_each_at(timestamps).set_send_at(timestamp).member("send_each_at"@) is None,
{
    lemma_member_keys_differ();
}

/// Whatever is called on a header, and in whatever order, at most one of the
/// two ways to schedule is in use afterwards, and the JSON form never has
/// both `send_at` and `send_each_at`.
pub proof fn lemma_every_mutation_keeps_schedule_exclusive(
    header: HeaderView,
    calls: Seq<Mutation>,
)
    requires
        header.schedule_exclusive(),
    ensures
        apply_each(header, calls).schedule_exclusive(),
        !(apply_each(header, calls).member("send_at"@) is Some && apply_each(
            header,
            calls,
        ).member("send_each_at"@) is Some),
    decreases calls.len(),
{
    lemma_member_keys_differ();
    if calls.len() > 0 {
        lemma_every_mutation_keeps_schedule_exclusive(header, calls.drop_last());
    }
}

/// An empty list of times per recipient is kept in the header and left out
/// of its JSON form; the first time appended to it brings the key.
pub proof fn lemma_empty_times_are_left_out(header: HeaderView, timestamp: i64)
    ensures
        header.set_send_each_at(Seq::empty()).send_each_at == Some(Seq::<i64>::empty()),
        header.set_send_each_at(Seq::empty()).member("send_each_at"@) is None,
        header.set_send_each_at(Seq::empty()).add_send_each_at(timestamp).member(
            "send_each_at"@,
        ) == Some(integer_array(seq![timestamp])),
{
    lemma_member_keys_differ();
    assert(Seq::<i64>::empty().push(timestamp) =~= seq![timestamp]);
}

/// Two settings added to one filter name are settings of one filter: the
/// header has that filter, and no other filter that it did not have; the
/// filter holds the second setting, and the first one too unless the second
/// has the same name.
pub proof fn lemma_add_filter_twice(
    header: HeaderView,
    name: Seq<char>,
    first: (Seq<char>, Seq<char>),
    second: (Seq<char>, Seq<char>),
)
    ensures
        ({
            let after = header.add_filter(name, first.0, first.1).add_filter(
                name,
                second.0,
                second.1,
            );
            &&& after.filters.dom() == header.filters.dom().insert(name)
            &&& after.filters[name] == header.filter_settings(name).insert(first.0, first.1).insert(
                second.0,
                second.1,
            )
            &&& after.filters[name].contains_key(first.0)
            &&& after.filters[name].contains_key(second.0)
            &&& after.filters[name][second.0] == second.1
            &&& first.0 != second.0 ==> after.filters[name][first.0] == first.1
        }),
{
    let after = header.add_filter(name, first.0, first.1).add_filter(name, second.0, second.1);
    assert(after.filters.dom() =~= header.filters.dom().insert(name));
}

/// The JSON form of a header has no members exactly when every sequence and
/// mapping of the header is empty, the times per recipient are absent or
/// without a time, and every other optional field is absent. So it is for
/// the header that holds nothing.
pub proof fn lemma_no_members_iff_nothing_held(header: HeaderView)
    ensures
        header.members().is_empty() <==> {
            &&& header.to.len() == 0
            &&& header.sub.is_empty()
            &&& header.section.is_empty()
            &&& header.categories.len() == 0
            &&& header.unique_args.is_empty()
            &&& header.filters.is_empty()
            &&& header.asm_group_id is None
            &&& header.send_at is None
            &&& (header.send_each_at matches Some(timestamps) ==> timestamps.len() == 0)
            &&& header.ip_pool is None
        },
        HeaderView::empty().members().is_empty(),
        HeaderView::empty().json() == JsonValue::Object(Map::empty()),
{
    lemma_member_keys_differ();
    let members = header.members();
    if members.is_empty() {
        assert(!members.contains_key("to"@));
        assert(!members.contains_key("sub"@));
        assert(!members.contains_key("section"@));
        assert(!members.contains_key("category"@));
        assert(!members.contains_key("unique_args"@));
        assert(!members.contains_key("filters"@));
        assert(!members.contains_key("asm_group_id"@));
        assert(!members.contains_key("send_at"@));
        assert(!members.contains_key("send_each_at"@));
        assert(!members.contains_key("ip_pool"@));
    }
    assert(HeaderView::empty().members() =~= Map::<Seq<char>, JsonValue>::empty());
}

} // verus!

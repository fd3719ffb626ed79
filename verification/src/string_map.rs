use vstd::prelude::*;

verus! {

/// Whether no two entries of the sequence have the same key.
pub open spec fn distinct_keys<V>(entries: Seq<(String, V)>) -> bool {
    forall|i: int, j: int| 0 <= i < j < entries.len() ==> entries[i].0@ != entries[j].0@
}

/// The mapping that a sequence of entries stands for. Where a key occurs more
/// than once, its last entry counts.
pub open spec fn entries_map<V>(entries: Seq<(String, V)>) -> Map<Seq<char>, V>
    decreases entries.len(),
{
    if entries.len() == 0 {
        Map::empty()
    } else {
        entries_map(entries.drop_last()).insert(entries.last().0@, entries.last().1)
    }
}

/// The keys of `entries_map(entries)` are the keys of the entries.
pub proof fn lemma_entries_map_keys<V>(entries: Seq<(String, V)>)
    ensures
        entries_map(entries).dom().finite(),
        forall|k: Seq<char>| #[trigger]
            entries_map(entries).contains_key(k) <==> exists|i: int|
                0 <= i < entries.len() && #[trigger] entries[i].0@ == k,
    decreases entries.len(),
{
    if entries.len() > 0 {
        let front = entries.drop_last();
        lemma_entries_map_keys(front);
        assert forall|k: Seq<char>| #[trigger]
            entries_map(entries).contains_key(k) implies exists|i: int|
            0 <= i < entries.len() && #[trigger] entries[i].0@ == k by {
            if k != entries.last().0@ {
                let i = choose|i: int| 0 <= i < front.len() && #[trigger] front[i].0@ == k;
                assert(entries[i].0@ == k);
            }
        }
        assert forall|k: Seq<char>|
            (exists|i: int|
                0 <= i < entries.len() && #[trigger] entries[i].0@ == k) implies #[trigger]
            entries_map(entries).contains_key(k) by {
            let i = choose|i: int| 0 <= i < entries.len() && #[trigger] entries[i].0@ == k;
            if i < entries.len() - 1 {
                assert(front[i].0@ == k);
            }
        }
    }
}

/// With distinct keys, each entry's key is mapped to that entry's value, and
/// there are as many keys as entries.
pub proof fn lemma_entries_map_values<V>(entries: Seq<(String, V)>)
    requires
        distinct_keys(entries),
    ensures
        forall|i: int|
            0 <= i < entries.len() ==> entries_map(entries).contains_key(
                #[trigger] entries[i].0@,
            ) && entries_map(entries)[entries[i].0@] == entries[i].1,
        entries_map(entries).dom().len() == entries.len(),
    decreases entries.len(),
{
    if entries.len() > 0 {
        let front = entries.drop_last();
        lemma_entries_map_values(front);
        lemma_entries_map_keys(front);
        assert forall|i: int| 0 <= i < entries.len() implies entries_map(entries).contains_key(
            #[trigger] entries[i].0@,
        ) && entries_map(entries)[entries[i].0@] == entries[i].1 by {
            if i < entries.len() - 1 {
                assert(front[i] == entries[i]);
            }
        }
        if entries_map(front).contains_key(entries.last().0@) {
            let i = choose|i: int|
                0 <= i < front.len() && #[trigger] front[i].0@ == entries.last().0@;
            assert(entries[i].0@ == entries[entries.len() - 1].0@);
        }
    }
}

/// A mapping is empty exactly when it is empty after a function is applied to
/// its values.
pub proof fn lemma_map_values_empty<K, A, B>(m: Map<K, A>, f: spec_fn(A) -> B)
    ensures
        m.map_values(f).is_empty() <==> m == Map::<K, A>::empty(),
{
    if m.map_values(f).is_empty() {
        assert(m =~= Map::<K, A>::empty());
    }
}

/// Two entry sequences with the same keys, position by position, and with
/// values that agree after `f` and `g`, stand for mappings that agree after `f`
/// and `g`.
pub proof fn lemma_entries_map_pointwise<A, B, C>(
    a: Seq<(String, A)>,
    b: Seq<(String, B)>,
    f: spec_fn(A) -> C,
    g: spec_fn(B) -> C,
)
    requires
        a.len() == b.len(),
        forall|i: int| 0 <= i < a.len() ==> (#[trigger] a[i]).0@ == b[i].0@ && f(a[i].1) == g(b[i].1),
    ensures
        distinct_keys(a) <==> distinct_keys(b),
        entries_map(a).map_values(f) == entries_map(b).map_values(g),
    decreases a.len(),
{
    if distinct_keys(a) {
        assert forall|i: int, j: int| 0 <= i < j < b.len() implies b[i].0@ != b[j].0@ by {
            assert(a[i].0@ == b[i].0@ && a[j].0@ == b[j].0@);
        }
    }
    if distinct_keys(b) {
        assert forall|i: int, j: int| 0 <= i < j < a.len() implies a[i].0@ != a[j].0@ by {
            assert(a[i].0@ == b[i].0@ && a[j].0@ == b[j].0@);
        }
    }
    if a.len() > 0 {
        let a0 = a.drop_last();
        let b0 = b.drop_last();
        assert forall|i: int| 0 <= i < a0.len() implies (#[trigger] a0[i]).0@ == b0[i].0@ && f(
            a0[i].1,
        ) == g(b0[i].1) by {
            assert(a0[i] == a[i] && b0[i] == b[i]);
        }
        lemma_entries_map_pointwise(a0, b0, f, g);
        assert(entries_map(a).map_values(f) =~= entries_map(a0).map_values(f).insert(
            a.last().0@,
            f(a.last().1),
        ));
        assert(entries_map(b).map_values(g) =~= entries_map(b0).map_values(g).insert(
            b.last().0@,
            g(b.last().1),
        ));
    } else {
        assert(entries_map(a).map_values(f) =~= entries_map(b).map_values(g));
    }
}

/// A mapping from strings to values, kept as a list of entries with distinct keys.
///
/// Two keys are the same key when they have the same characters. The order of
/// the entries carries no meaning: the view of a `StringMap` is a `Map`.
#[derive(Debug)]
pub struct StringMap<V> {
    entries: Vec<(String, V)>,
}

impl<V> View for StringMap<V> {
    type V = Map<Seq<char>, V>;

    closed spec fn view(&self) -> Map<Seq<char>, V> {
        entries_map(self.entries@)
    }
}

impl<V> StringMap<V> {
    #[verifier::type_invariant]
    spec fn well_formed(&self) -> bool {
        distinct_keys(self.entries@)
    }

    /// A map without entries.
    pub fn new() -> (m: Self)
        ensures
            m@ == Map::<Seq<char>, V>::empty(),
    {
        StringMap { entries: Vec::new() }
    }

    /// The index of the entry with the given key, if there is one.
    fn position(&self, key: &String) -> (found: Option<usize>)
        ensures
            match found {
                Some(i) => i < self.entries@.len() && self.entries@[i as int].0@ == key@,
                None => forall|i: int| 0 <= i < self.entries@.len() ==> self.entries@[i].0@ != key@,
            },
    {
        let mut i: usize = 0;
        while i < self.entries.len()
            invariant
                i <= self.entries@.len(),
                forall|j: int| 0 <= j < i ==> self.entries@[j].0@ != key@,
            decreases self.entries@.len() - i,
        {
            if self.entries[i].0 == *key {
                return Some(i);
            }
            i += 1;
        }
        None
    }

    /// The number of entries.
    pub fn len(&self) -> (n: usize)
        ensures
            self@.dom().finite(),
            n == self@.dom().len(),
    {
        proof {
            use_type_invariant(self);
            lemma_entries_map_keys(self.entries@);
            lemma_entries_map_values(self.entries@);
        }
        self.entries.len()
    }

    /// Whether the map has no entry.
    pub fn is_empty(&self) -> (b: bool)
        ensures
            b <==> self@ == Map::<Seq<char>, V>::empty(),
    {
        proof {
            lemma_entries_map_keys(self.entries@);
            if self.entries@.len() > 0 {
                assert(self@.contains_key(self.entries@[0].0@));
            }
        }
        self.entries.len() == 0
    }

    /// Whether the map has an entry for `key`.
    pub fn contains_key(&self, key: &str) -> (b: bool)
        ensures
            b == self@.contains_key(key@),
    {
        proof {
            lemma_entries_map_keys(self.entries@);
        }
        let key = key.to_owned();
        match self.position(&key) {
            Some(_) => true,
            None => false,
        }
    }

    /// The value that `key` is mapped to, if there is one.
    pub fn get(&self, key: &str) -> (value: Option<&V>)
        ensures
            match value {
                Some(v) => self@.contains_key(key@) && *v == self@[key@],
                None => !self@.contains_key(key@),
            },
    {
        proof {
            use_type_invariant(self);
            lemma_entries_map_keys(self.entries@);
            lemma_entries_map_values(self.entries@);
        }
        let key = key.to_owned();
        match self.position(&key) {
            Some(i) => Some(&self.entries[i].1),
            None => None,
        }
    }

    /// Maps `key` to `value`, and returns the value that `key` was mapped to
    /// before, if there was one.
    pub fn insert(&mut self, key: String, value: V) -> (previous: Option<V>)
        ensures
            final(self)@ == old(self)@.insert(key@, value),
            previous == if old(self)@.contains_key(key@) {
                Some(old(self)@[key@])
            } else {
                None
            },
    {
        proof {
            use_type_invariant(&*self);
            lemma_entries_map_keys(self.entries@);
            lemma_entries_map_values(self.entries@);
        }
        let found = self.position(&key);
        let mut entries: Vec<(String, V)> = Vec::new();
        std::mem::swap(&mut entries, &mut self.entries);
        let ghost before = entries@;
        entries.push((key, value));
        let previous = match found {
            Some(i) => {
                let displaced = entries.swap_remove(i);
                proof {
                    lemma_replace(before, i as int, (key, value));
                    assert(entries@ == before.update(i as int, (key, value)));
                }
                Some(displaced.1)
            },
            None => {
                proof {
                    assert(entries@.drop_last() == before);
                }
                None
            },
        };
        self.entries = entries;
        previous
    }

    /// Removes the entry for `key`, and returns its value, if there was one.
    pub fn remove(&mut self, key: &str) -> (previous: Option<V>)
        ensures
            final(self)@ == old(self)@.remove(key@),
            previous == if old(self)@.contains_key(key@) {
                Some(old(self)@[key@])
            } else {
                None
            },
    {
        proof {
            use_type_invariant(&*self);
            lemma_entries_map_keys(self.entries@);
            lemma_entries_map_values(self.entries@);
        }
        let key = key.to_owned();
        match self.position(&key) {
            Some(i) => {
                let mut entries: Vec<(String, V)> = Vec::new();
                std::mem::swap(&mut entries, &mut self.entries);
                let ghost before = entries@;
                let displaced = entries.remove(i);
                proof {
                    lemma_remove(before, i as int);
                }
                self.entries = entries;
                Some(displaced.1)
            },
            None => {
                proof {
                    assert(self@.remove(key@) =~= self@);
                }
                None
            },
        }
    }

    /// Gives up the map for its entries, in no particular order.
    pub fn into_entries(self) -> (entries: Vec<(String, V)>)
        ensures
            distinct_keys(entries@),
            entries_map(entries@) == self@,
    {
        proof {
            use_type_invariant(&self);
        }
        self.entries
    }

    /// The entries of the map, in no particular order.
    pub fn entries(&self) -> (entries: &Vec<(String, V)>)
        ensures
            distinct_keys(entries@),
            entries_map(entries@) == self@,
    {
        proof {
            use_type_invariant(self);
        }
        &self.entries
    }
}

/// Replacing an entry by one with the same key keeps the keys distinct and
/// maps the key to the new value.
proof fn lemma_replace<V>(entries: Seq<(String, V)>, i: int, entry: (String, V))
    requires
        distinct_keys(entries),
        0 <= i < entries.len(),
        entries[i].0@ == entry.0@,
    ensures
        distinct_keys(entries.update(i, entry)),
        entries_map(entries.update(i, entry)) == entries_map(entries).insert(entry.0@, entry.1),
{
    let after = entries.update(i, entry);
    let expected = entries_map(entries).insert(entry.0@, entry.1);
    assert(distinct_keys(after)) by {
        assert forall|a: int, b: int| 0 <= a < b < after.len() implies after[a].0@ != after[b].0@ by {
            assert(after[a].0@ == entries[a].0@ && after[b].0@ == entries[b].0@);
        }
    }
    lemma_entries_map_keys(entries);
    lemma_entries_map_values(entries);
    lemma_entries_map_keys(after);
    lemma_entries_map_values(after);
    assert forall|k: Seq<char>| entries_map(after).contains_key(k) <==> expected.contains_key(
        k,
    ) by {
        if entries_map(after).contains_key(k) {
            let j = choose|j: int| 0 <= j < after.len() && #[trigger] after[j].0@ == k;
            assert(entries[j].0@ == k);
        }
        if expected.contains_key(k) && k != entry.0@ {
            let j = choose|j: int| 0 <= j < entries.len() && #[trigger] entries[j].0@ == k;
            assert(after[j].0@ == k);
        }
        if k == entry.0@ {
            assert(after[i].0@ == k);
        }
    }
    assert forall|k: Seq<char>| entries_map(after).contains_key(k) implies entries_map(after)[k]
        == expected[k] by {
        let j = choose|j: int| 0 <= j < after.len() && #[trigger] after[j].0@ == k;
        assert(entries_map(after)[after[j].0@] == after[j].1);
        assert(entries[j].0@ == k);
    }
}

/// Removing an entry keeps the keys distinct and removes its key from the mapping.
proof fn lemma_remove<V>(entries: Seq<(String, V)>, i: int)
    requires
        distinct_keys(entries),
        0 <= i < entries.len(),
    ensures
        distinct_keys(entries.remove(i)),
        entries_map(entries.remove(i)) == entries_map(entries).remove(entries[i].0@),
{
    let after = entries.remove(i);
    let expected = entries_map(entries).remove(entries[i].0@);
    let origin = |j: int| if j < i { j } else { j + 1 };
    assert forall|j: int| 0 <= j < after.len() implies #[trigger] after[j] == entries[origin(j)] by {}
    assert(distinct_keys(after)) by {
        assert forall|a: int, b: int| 0 <= a < b < after.len() implies after[a].0@ != after[b].0@ by {
            assert(after[a] == entries[origin(a)] && after[b] == entries[origin(b)]);
        }
    }
    lemma_entries_map_keys(entries);
    lemma_entries_map_values(entries);
    lemma_entries_map_keys(after);
    lemma_entries_map_values(after);
    assert forall|k: Seq<char>| entries_map(after).contains_key(k) <==> expected.contains_key(
        k,
    ) by {
        if entries_map(after).contains_key(k) {
            let j = choose|j: int| 0 <= j < after.len() && #[trigger] after[j].0@ == k;
            assert(entries[origin(j)].0@ == k);
        }
        if expected.contains_key(k) {
            let j = choose|j: int| 0 <= j < entries.len() && #[trigger] entries[j].0@ == k;
            let moved = if j < i { j } else { j - 1 };
            assert(after[moved].0@ == k);
        }
    }
    assert forall|k: Seq<char>| entries_map(after).contains_key(k) implies entries_map(after)[k]
        == expected[k] by {
        let j = choose|j: int| 0 <= j < after.len() && #[trigger] after[j].0@ == k;
        assert(entries_map(after)[after[j].0@] == after[j].1);
        assert(entries[origin(j)].0@ == k);
    }
}

} // verus!

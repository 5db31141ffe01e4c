//! The mapping from cache keys to queries.
//!
//! The entries are kept in the order in which their keys first came in, so
//! that walking them gives the same order on every run. No key occurs twice.

use vstd::prelude::*;
use crate::models::query::{Query, QueryView};

verus! {

/// One entry as the contracts speak of it: a key and the query kept under it.
pub type EntryView = (Seq<char>, QueryView);

/// The keys of the entries, in order.
pub open spec fn keys_of(entries: Seq<EntryView>) -> Seq<Seq<char>> {
    entries.map_values(|e: EntryView| e.0)
}

/// Whether no key occurs twice.
pub open spec fn distinct_keys(entries: Seq<EntryView>) -> bool {
    keys_of(entries).no_duplicates()
}

/// Whether some entry has the key.
pub open spec fn has_key(entries: Seq<EntryView>, key: Seq<char>) -> bool {
    keys_of(entries).contains(key)
}

/// The place of the entry with the key, where there is one.
pub open spec fn position(entries: Seq<EntryView>, key: Seq<char>) -> int {
    keys_of(entries).index_of(key)
}

/// The query kept under the key, if any.
pub open spec fn lookup(entries: Seq<EntryView>, key: Seq<char>) -> Option<QueryView> {
    if has_key(entries, key) {
        Some(entries[position(entries, key)].1)
    } else {
        None
    }
}

/// The entries once `query` is kept under `key`: in the place of the entry
/// that had the key, or else behind all others.
pub open spec fn put(entries: Seq<EntryView>, key: Seq<char>, query: QueryView) -> Seq<EntryView> {
    if has_key(entries, key) {
        entries.update(position(entries, key), (key, query))
    } else {
        entries.push((key, query))
    }
}

/// The entries without the one that has the key.
pub open spec fn del(entries: Seq<EntryView>, key: Seq<char>) -> Seq<EntryView> {
    if has_key(entries, key) {
        entries.remove(position(entries, key))
    } else {
        entries
    }
}

/// The entries that come of putting each pair in turn, a later pair
/// replacing an earlier one with the same key.
pub open spec fn put_all(entries: Seq<EntryView>, pairs: Seq<EntryView>) -> Seq<EntryView>
    decreases pairs.len(),
{
    if pairs.len() == 0 {
        entries
    } else {
        put(put_all(entries, pairs.drop_last()), pairs.last().0, pairs.last().1)
    }
}

/// The entries as a mapping, their order forgotten.
pub open spec fn as_map(entries: Seq<EntryView>) -> Map<Seq<char>, QueryView> {
    Map::new(
        |key: Seq<char>| has_key(entries, key),
        |key: Seq<char>| entries[position(entries, key)].1,
    )
}

/// The views of a sequence of pairs, in order.
pub open spec fn entry_views(pairs: Seq<(String, Query)>) -> Seq<EntryView> {
    pairs.map_values(|e: (String, Query)| (e.0@, e.1@))
}

/// Where no key occurs twice, a key is found at the one place that holds it.
pub proof fn lemma_position(entries: Seq<EntryView>, i: int)
    requires
        distinct_keys(entries),
        0 <= i < entries.len(),
    ensures
        has_key(entries, entries[i].0),
        position(entries, entries[i].0) == i,
        lookup(entries, entries[i].0) == Some(entries[i].1),
{
    let keys = keys_of(entries);
    assert(keys[i] == entries[i].0);
    let j = keys.index_of(entries[i].0);
    assert(0 <= j < keys.len() && keys[j] == entries[i].0);
}

/// A key that some entry has is found at a place that holds it.
pub proof fn lemma_has_key(entries: Seq<EntryView>, key: Seq<char>)
    requires
        has_key(entries, key),
    ensures
        0 <= position(entries, key) < entries.len(),
        entries[position(entries, key)].0 == key,
{
    let keys = keys_of(entries);
    let j = keys.index_of(key);
    assert(0 <= j < keys.len() && keys[j] == key);
}

/// What putting does: the key then leads to the query, every other key leads
/// where it led, no key occurs twice, and the number of entries grows by one
/// exactly when the key is new.
pub proof fn lemma_put(entries: Seq<EntryView>, key: Seq<char>, query: QueryView)
    requires
        distinct_keys(entries),
    ensures
        distinct_keys(put(entries, key, query)),
        lookup(put(entries, key, query), key) == Some(query),
        forall|other: Seq<char>|
            other != key ==> lookup(put(entries, key, query), other) == #[trigger] lookup(
                entries,
                other,
            ),
        forall|other: Seq<char>|
            #[trigger] has_key(put(entries, key, query), other) <==> other == key || has_key(
                entries,
                other,
            ),
        as_map(put(entries, key, query)) == as_map(entries).insert(key, query),
        put(entries, key, query).len() == if has_key(entries, key) {
            entries.len()
        } else {
            entries.len() + 1
        },
{
    let after = put(entries, key, query);
    let keys = keys_of(entries);
    let keys_after = keys_of(after);
    if has_key(entries, key) {
        lemma_has_key(entries, key);
        assert(keys_after =~= keys);
    } else {
        assert(keys_after =~= keys.push(key));
        assert(keys_after.no_duplicates()) by {
            assert forall|i: int, j: int|
                0 <= i < keys_after.len() && 0 <= j < keys_after.len() && i != j implies keys_after[i]
                != keys_after[j] by {
                if i < keys.len() && j < keys.len() {
                } else if i < keys.len() {
                    assert(keys[i] != key);
                } else {
                    assert(keys[j] != key);
                }
            }
        }
    }
    assert forall|other: Seq<char>| #[trigger]
        has_key(after, other) <==> other == key || has_key(entries, other) by {
        if has_key(after, other) {
            lemma_has_key(after, other);
            let i = position(after, other);
            if other != key {
                assert(keys[i] == other);
            }
        }
        if has_key(entries, other) {
            lemma_has_key(entries, other);
            let i = position(entries, other);
            assert(keys_after[i] == other);
        }
        if other == key {
            if has_key(entries, key) {
                assert(keys_after[position(entries, key)] == key);
            } else {
                assert(keys_after[entries.len() as int] == key);
            }
        }
    }
    assert forall|other: Seq<char>| has_key(after, other) implies (#[trigger] lookup(after, other))
        == (if other == key {
        Some(query)
    } else {
        lookup(entries, other)
    }) by {
        lemma_has_key(after, other);
        if other == key {
            if has_key(entries, key) {
                lemma_position(after, position(entries, key));
            } else {
                lemma_position(after, entries.len() as int);
            }
        } else {
            lemma_has_key(entries, other);
            let j = position(entries, other);
            assert(after[j] == entries[j]);
            lemma_position(after, j);
        }
    }
    assert(as_map(after) =~= as_map(entries).insert(key, query)) by {
        assert forall|other: Seq<char>| as_map(after).dom().contains(other) implies as_map(after)[other]
            == as_map(entries).insert(key, query)[other] by {
            assert(has_key(after, other));
            assert(lookup(after, other) == Some(as_map(after)[other]));
        }
    }
}

/// What deleting does: the key then leads nowhere, every other key leads
/// where it led, no key occurs twice, and the number of entries shrinks by
/// one exactly when the key was there.
pub proof fn lemma_del(entries: Seq<EntryView>, key: Seq<char>)
    requires
        distinct_keys(entries),
    ensures
        distinct_keys(del(entries, key)),
        !has_key(del(entries, key), key),
        forall|other: Seq<char>|
            other != key ==> lookup(del(entries, key), other) == #[trigger] lookup(entries, other),
        forall|other: Seq<char>|
            #[trigger] has_key(del(entries, key), other) <==> other != key && has_key(
                entries,
                other,
            ),
        as_map(del(entries, key)) == as_map(entries).remove(key),
        del(entries, key).len() == if has_key(entries, key) {
            entries.len() - 1
        } else {
            entries.len() as int
        },
{
    let after = del(entries, key);
    let keys = keys_of(entries);
    let keys_after = keys_of(after);
    if has_key(entries, key) {
        lemma_has_key(entries, key);
        let p = position(entries, key);
        assert(keys_after =~= keys.remove(p));
        assert(keys_after.no_duplicates()) by {
            assert forall|i: int, j: int|
                0 <= i < keys_after.len() && 0 <= j < keys_after.len() && i != j implies keys_after[i]
                != keys_after[j] by {
                let a = if i < p {
                    i
                } else {
                    i + 1
                };
                let b = if j < p {
                    j
                } else {
                    j + 1
                };
                assert(keys_after[i] == keys[a]);
                assert(keys_after[j] == keys[b]);
            }
        }
        assert forall|other: Seq<char>| #[trigger]
            has_key(after, other) <==> other != key && has_key(entries, other) by {
            if has_key(after, other) {
                lemma_has_key(after, other);
                let i = position(after, other);
                let a = if i < p {
                    i
                } else {
                    i + 1
                };
                assert(keys_after[i] == keys[a]);
                assert(keys[a] != keys[p]);
            }
            if other != key && has_key(entries, other) {
                lemma_has_key(entries, other);
                let a = position(entries, other);
                let i = if a < p {
                    a
                } else {
                    a - 1
                };
                assert(keys_after[i] == other);
            }
        }
        assert forall|other: Seq<char>| other != key && has_key(entries, other) implies lookup(
            after,
            other,
        ) == #[trigger] lookup(entries, other) by {
            lemma_has_key(entries, other);
            let a = position(entries, other);
            let i = if a < p {
                a
            } else {
                a - 1
            };
            assert(after[i] == entries[a]);
            lemma_position(after, i);
        }
    }
    assert(as_map(after) =~= as_map(entries).remove(key)) by {
        assert forall|other: Seq<char>| as_map(after).dom().contains(other) implies as_map(after)[other]
            == as_map(entries).remove(key)[other] by {
            assert(has_key(after, other));
            assert(lookup(after, other) == Some(as_map(after)[other]));
            assert(lookup(entries, other) == Some(as_map(entries)[other]));
        }
    }
}

/// The mapping has one pair for each entry.
pub proof fn lemma_as_map_len(entries: Seq<EntryView>)
    requires
        distinct_keys(entries),
    ensures
        as_map(entries).dom().finite(),
        as_map(entries).len() == entries.len(),
    decreases entries.len(),
{
    if entries.len() == 0 {
        assert(as_map(entries).dom() =~= Set::<Seq<char>>::empty());
    } else {
        let last = entries.last();
        let rest = entries.drop_last();
        assert(keys_of(rest) =~= keys_of(entries).drop_last());
        assert(distinct_keys(rest));
        assert(!has_key(rest, last.0)) by {
            if has_key(rest, last.0) {
                lemma_has_key(rest, last.0);
                let i = position(rest, last.0);
                assert(keys_of(entries)[i] == last.0);
                assert(keys_of(entries)[entries.len() - 1] == last.0);
            }
        }
        lemma_as_map_len(rest);
        assert(put(rest, last.0, last.1) =~= entries);
        lemma_put(rest, last.0, last.1);
        assert(as_map(entries).dom() =~= as_map(rest).dom().insert(last.0));
    }
}

/// The queries of a cache, each under its key, in the order in which the
/// keys first came in.
#[derive(Debug, PartialEq)]
pub struct Entries {
    items: Vec<(String, Query)>,
}

impl View for Entries {
    type V = Seq<EntryView>;

    closed spec fn view(&self) -> Seq<EntryView> {
        if distinct_keys(entry_views(self.items@)) {
            entry_views(self.items@)
        } else {
            Seq::empty()
        }
    }
}

fn find(items: &Vec<(String, Query)>, key: &String) -> (found: Option<usize>)
    ensures
        match found {
            Some(i) => i < items.len() && items@[i as int].0@ == key@,
            None => !has_key(entry_views(items@), key@),
        },
{
    let mut i: usize = 0;
    while i < items.len()
        invariant
            i <= items.len(),
            forall|j: int| 0 <= j < i ==> items@[j].0@ != key@,
        decreases items.len() - i,
    {
        if items[i].0 == *key {
            return Some(i);
        }
        i += 1;
    }
    proof {
        let entries = entry_views(items@);
        if has_key(entries, key@) {
            lemma_has_key(entries, key@);
        }
    }
    None
}

fn replace_at(items: &mut Vec<(String, Query)>, i: usize, key: String, query: Query) -> (previous: (
    String,
    Query,
))
    requires
        i < old(items).len(),
    ensures
        final(items)@ == old(items)@.update(i as int, (key, query)),
        previous == old(items)@[i as int],
{
    items.push((key, query));
    let previous = items.swap_remove(i);
    assert(items@ =~= old(items)@.update(i as int, (key, query)));
    previous
}

impl Entries {
    #[verifier::type_invariant]
    spec fn keys_are_distinct(self) -> bool {
        distinct_keys(entry_views(self.items@))
    }

    /// No entries.
    pub fn new() -> (entries: Entries)
        ensures
            entries@ == Seq::<EntryView>::empty(),
    {
        let entries = Entries { items: Vec::new() };
        assert(entries@ =~= Seq::<EntryView>::empty());
        entries
    }

    /// No key occurs twice in the entries.
    pub proof fn lemma_keys_distinct(self)
        ensures
            distinct_keys(self@),
    {
        assert(keys_of(Seq::<EntryView>::empty()) =~= Seq::<Seq<char>>::empty());
    }

    /// The number of entries.
    pub fn len(&self) -> (len: usize)
        ensures
            len == self@.len(),
    {
        proof {
            use_type_invariant(self);
        }
        self.items.len()
    }

    /// Whether there is no entry.
    pub fn is_empty(&self) -> (empty: bool)
        ensures
            empty == (self@.len() == 0),
    {
        proof {
            use_type_invariant(self);
        }
        self.items.len() == 0
    }

    /// Whether a query is kept under the key.
    pub fn contains_key(&self, key: &String) -> (found: bool)
        ensures
            found == has_key(self@, key@),
    {
        proof {
            use_type_invariant(self);
        }
        match find(&self.items, key) {
            Some(i) => {
                proof {
                    assert(keys_of(self@)[i as int] == key@);
                }
                true
            },
            None => false,
        }
    }

    /// The query kept under the key, if any.
    pub fn get(&self, key: &String) -> (found: Option<&Query>)
        ensures
            match found {
                Some(query) => lookup(self@, key@) == Some(query@),
                None => lookup(self@, key@) is None,
            },
    {
        proof {
            use_type_invariant(self);
        }
        match find(&self.items, key) {
            Some(i) => {
                proof {
                    lemma_position(self@, i as int);
                }
                Some(&self.items[i].1)
            },
            None => None,
        }
    }

    /// Keeps the query under the key, and hands back the query that the key
    /// led to before, if any. A known key keeps its place; a new one goes
    /// behind all others.
    pub fn insert(&mut self, key: String, query: Query) -> (previous: Option<Query>)
        ensures
            final(self)@ == put(old(self)@, key@, query@),
            match previous {
                Some(before) => lookup(old(self)@, key@) == Some(before@),
                None => lookup(old(self)@, key@) is None,
            },
    {
        proof {
            use_type_invariant(&*self);
            lemma_put(self@, key@, query@);
        }
        let mut items: Vec<(String, Query)> = Vec::new();
        core::mem::swap(&mut self.items, &mut items);
        let previous = match find(&items, &key) {
            Some(i) => {
                proof {
                    lemma_position(old(self)@, i as int);
                }
                let previous = replace_at(&mut items, i, key, query);
                Some(previous.1)
            },
            None => {
                items.push((key, query));
                None
            },
        };
        assert(entry_views(items@) =~= put(old(self)@, key@, query@));
        core::mem::swap(&mut self.items, &mut items);
        previous
    }

    /// Takes out the entry with the key, and hands it back, if there is one.
    /// The other entries keep their order.
    pub fn remove_entry(&mut self, key: &String) -> (removed: Option<(String, Query)>)
        ensures
            final(self)@ == del(old(self)@, key@),
            match removed {
                Some(entry) => entry.0@ == key@ && lookup(old(self)@, key@) == Some(entry.1@),
                None => lookup(old(self)@, key@) is None,
            },
    {
        proof {
            use_type_invariant(&*self);
            lemma_del(self@, key@);
        }
        let mut items: Vec<(String, Query)> = Vec::new();
        core::mem::swap(&mut self.items, &mut items);
        let removed = match find(&items, key) {
            Some(i) => {
                proof {
                    lemma_position(old(self)@, i as int);
                }
                Some(items.remove(i))
            },
            None => None,
        };
        assert(entry_views(items@) =~= del(old(self)@, key@));
        core::mem::swap(&mut self.items, &mut items);
        removed
    }

    /// Takes out every entry.
    pub fn clear(&mut self)
        ensures
            final(self)@ == Seq::<EntryView>::empty(),
    {
        let mut items: Vec<(String, Query)> = Vec::new();
        assert(entry_views(items@) =~= Seq::<EntryView>::empty());
        core::mem::swap(&mut self.items, &mut items);
    }

    /// The entries as pairs of key and query, in order.
    pub fn pairs(&self) -> (pairs: &Vec<(String, Query)>)
        ensures
            entry_views(pairs@) == self@,
    {
        proof {
            use_type_invariant(self);
        }
        &self.items
    }

    /// The entries that come of putting each pair in turn, a later pair
    /// replacing an earlier one that has the same key.
    pub fn from_pairs(pairs: Vec<(String, Query)>) -> (entries: Entries)
        ensures
            entries@ == put_all(Seq::empty(), entry_views(pairs@)),
    {
        let mut entries = Entries::new();
        let ghost all = pairs@;
        assert(entry_views(all.take(0)) =~= Seq::<EntryView>::empty());
        for pair in it: pairs
            invariant
                it.seq() == all,
                entries@ == put_all(Seq::empty(), entry_views(all.take(it.index() as int))),
        {
            proof {
                let done = entry_views(all.take(it.index() as int));
                let next = entry_views(all.take(it.index() + 1));
                assert(next.drop_last() =~= done);
                assert(next.last() == (pair.0@, pair.1@));
            }
            entries.insert(pair.0, pair.1);
        }
        assert(all.take(all.len() as int) =~= all);
        entries
    }
}

impl Clone for Entries {
    fn clone(&self) -> (copy: Self)
        ensures
            copy@ == self@,
    {
        proof {
            use_type_invariant(self);
        }
        let mut items: Vec<(String, Query)> = Vec::new();
        let mut i: usize = 0;
        while i < self.items.len()
            invariant
                i <= self.items.len(),
                entry_views(items@) == entry_views(self.items@).take(i as int),
            decreases self.items.len() - i,
        {
            let ghost before = items@;
            let key = self.items[i].0.clone();
            let query = self.items[i].1.clone();
            items.push((key, query));
            i += 1;
            assert(entry_views(items@) =~= entry_views(before).push((key@, query@)));
            assert(entry_views(items@) =~= entry_views(self.items@).take(i as int));
        }
        assert(entry_views(self.items@).take(i as int) =~= entry_views(self.items@));
        Entries { items }
    }
}

} // verus!

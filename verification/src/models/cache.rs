//! The cache of queries and the writes that keep its mirror in step.

use vstd::prelude::*;
use crate::models::bill::BillView;
use crate::models::effects::{buried, cache_rewrites, effect_views, Disk, Effect, EffectView};
use crate::models::entries::{
    del, distinct_keys, has_key, lemma_del, lemma_put, lookup, put, Entries, EntryView,
};
use crate::models::queries::chat_query::Cacheable;
use crate::models::query::{Query, QueryView};

verus! {

/// The entries once each query in turn is kept under its own key. With
/// `overwrite`, a query replaces what its key led to; without, a query whose
/// key is taken is passed over.
pub open spec fn merge(entries: Seq<EntryView>, queries: Seq<QueryView>, overwrite: bool) -> Seq<
    EntryView,
>
    decreases queries.len(),
{
    if queries.len() == 0 {
        entries
    } else {
        let before = merge(entries, queries.drop_last(), overwrite);
        let query = queries.last();
        if overwrite || !has_key(before, query.key()) {
            put(before, query.key(), query)
        } else {
            before
        }
    }
}

/// The burials that [`merge`] owes: with `overwrite`, one for each query
/// that replaces another, in order; without, none.
pub open spec fn merge_burials(
    entries: Seq<EntryView>,
    queries: Seq<QueryView>,
    overwrite: bool,
) -> Seq<EffectView>
    decreases queries.len(),
{
    if queries.len() == 0 {
        Seq::empty()
    } else {
        let before = merge(entries, queries.drop_last(), overwrite);
        let earlier = merge_burials(entries, queries.drop_last(), overwrite);
        match lookup(before, queries.last().key()) {
            Some(previous) => if overwrite {
                earlier.push(EffectView::Bury(previous))
            } else {
                earlier
            },
            None => earlier,
        }
    }
}

/// The views of a sequence of borrowed queries, in order.
pub open spec fn query_views(queries: Seq<&Query>) -> Seq<QueryView> {
    queries.map_values(|q: &Query| q@)
}

/// An operation that changes the cache.
pub enum CacheOp {
    /// Keep the query under its key.
    Insert(QueryView),
    /// Keep each of the queries under its key, overwriting or not.
    InsertMany(Seq<QueryView>, bool),
    /// Take out the entry with the key.
    Remove(Seq<char>),
    /// Take out every entry.
    Clear,
}

impl CacheOp {
    /// The entries after the operation.
    pub open spec fn entries_after(self, entries: Seq<EntryView>) -> Seq<EntryView> {
        match self {
            CacheOp::Insert(query) => put(entries, query.key(), query),
            CacheOp::InsertMany(queries, overwrite) => merge(entries, queries, overwrite),
            CacheOp::Remove(key) => del(entries, key),
            CacheOp::Clear => Seq::empty(),
        }
    }

    /// The writes that the operation owes, in order.
    ///
    /// An insertion buries what it overwrites and then rewrites the mirror.
    /// A batch buries what it overwrites and rewrites the mirror once, at the
    /// end. A removal rewrites the mirror if it removed something, and else
    /// writes nothing. Clearing rewrites the mirror.
    pub open spec fn effects(self, entries: Seq<EntryView>) -> Seq<EffectView> {
        match self {
            CacheOp::Insert(query) => match lookup(entries, query.key()) {
                Some(previous) => seq![EffectView::Bury(previous), EffectView::RewriteCache],
                None => seq![EffectView::RewriteCache],
            },
            CacheOp::InsertMany(queries, overwrite) => merge_burials(
                entries,
                queries,
                overwrite,
            ).push(EffectView::RewriteCache),
            CacheOp::Remove(key) => if has_key(entries, key) {
                seq![EffectView::RewriteCache]
            } else {
                Seq::empty()
            },
            CacheOp::Clear => seq![EffectView::RewriteCache],
        }
    }
}

/// The queries of earlier completions, each under its key, and the place
/// where they are mirrored.
#[derive(Debug, PartialEq)]
pub struct Cache {
    pub entries: Entries,
    /// Where the cache is mirrored.
    pub filepath: String,
}

impl Default for Cache {
    /// An empty cache mirrored at `./cache.json`.
    fn default() -> (cache: Self)
        ensures
            cache.entries@ == Seq::<EntryView>::empty(),
            cache.filepath@ == "./cache.json"@,
    {
        Cache::new(String::from_str("./cache.json"))
    }
}

impl Clone for Cache {
    fn clone(&self) -> (copy: Self)
        ensures
            copy.entries@ == self.entries@,
            copy.filepath@ == self.filepath@,
    {
        Cache { entries: self.entries.clone(), filepath: self.filepath.clone() }
    }
}

impl Cache {
    /// An empty cache mirrored at the given place.
    pub fn new(filepath: String) -> (cache: Cache)
        ensures
            cache.entries@ == Seq::<EntryView>::empty(),
            cache.filepath@ == filepath@,
    {
        Cache { entries: Entries::new(), filepath }
    }

    /// The query kept under the key, if any. Nothing is changed and nothing
    /// is to be written.
    pub fn lookup(&self, key: &String) -> (found: Option<&Query>)
        ensures
            match found {
                Some(query) => lookup(self.entries@, key@) == Some(query@),
                None => lookup(self.entries@, key@) is None,
            },
    {
        self.entries.get(key)
    }

    /// Empties the cache and asks for its mirror to be rewritten.
    pub fn clear(&mut self) -> (effects: Vec<Effect>)
        ensures
            final(self).entries@ == CacheOp::Clear.entries_after(old(self).entries@),
            effect_views(effects@) == CacheOp::Clear.effects(old(self).entries@),
            final(self).filepath == old(self).filepath,
    {
        self.entries.clear();
        let effects = vec![Effect::RewriteCache];
        assert(effect_views(effects@) =~= seq![EffectView::RewriteCache]);
        effects
    }

    /// Takes out the entry with the key and hands it back. Where there was
    /// one, the mirror is to be rewritten; where there was none, nothing is
    /// changed and nothing is to be written.
    pub fn remove(&mut self, cache_key: String) -> (removed: (Option<(String, Query)>, Vec<Effect>))
        ensures
            final(self).entries@ == CacheOp::Remove(cache_key@).entries_after(old(self).entries@),
            effect_views(removed.1@) == CacheOp::Remove(cache_key@).effects(old(self).entries@),
            match removed.0 {
                Some(entry) => entry.0@ == cache_key@ && lookup(old(self).entries@, cache_key@)
                    == Some(entry.1@),
                None => lookup(old(self).entries@, cache_key@) is None,
            },
            final(self).filepath == old(self).filepath,
    {
        let entry = self.entries.remove_entry(&cache_key);
        let mut effects: Vec<Effect> = Vec::new();
        if entry.is_some() {
            effects.push(Effect::RewriteCache);
        }
        assert(effect_views(effects@) =~= CacheOp::Remove(cache_key@).effects(old(self).entries@));
        (entry, effects)
    }

    /// Keeps a copy of the query under the query's own key. What the key led
    /// to before is to be buried in the graveyard; then the mirror is to be
    /// rewritten.
    pub fn insert(&mut self, query: &Query) -> (effects: Vec<Effect>)
        ensures
            final(self).entries@ == CacheOp::Insert(query@).entries_after(old(self).entries@),
            effect_views(effects@) == CacheOp::Insert(query@).effects(old(self).entries@),
            final(self).filepath == old(self).filepath,
    {
        let cache_key = query.key();
        let mut effects: Vec<Effect> = Vec::new();
        match self.entries.insert(cache_key, query.clone()) {
            None => (),
            Some(previous) => {
                effects.push(Effect::Bury(previous));
            },
        }
        effects.push(Effect::RewriteCache);
        assert(effect_views(effects@) =~= CacheOp::Insert(query@).effects(old(self).entries@));
        effects
    }

    /// Keeps a copy of each query under the query's own key, in order. With
    /// `overwrite`, what a key led to before is to be buried in the
    /// graveyard; without, a query whose key is taken is passed over. The
    /// mirror is to be rewritten once, when the whole batch is in.
    pub fn insert_many(&mut self, queries: Vec<&Query>, overwrite: bool) -> (effects: Vec<Effect>)
        ensures
            final(self).entries@ == CacheOp::InsertMany(
                query_views(queries@),
                overwrite,
            ).entries_after(old(self).entries@),
            effect_views(effects@) == CacheOp::InsertMany(query_views(queries@), overwrite).effects(
                old(self).entries@,
            ),
            final(self).filepath == old(self).filepath,
    {
        let ghost all = query_views(queries@);
        let ghost start = self.entries@;
        let mut effects: Vec<Effect> = Vec::new();
        let mut i: usize = 0;
        assert(all.take(0) =~= Seq::<QueryView>::empty());
        assert(effect_views(effects@) =~= Seq::<EffectView>::empty());
        while i < queries.len()
            invariant
                i <= queries.len(),
                all == query_views(queries@),
                self.filepath == old(self).filepath,
                self.entries@ == merge(start, all.take(i as int), overwrite),
                effect_views(effects@) == merge_burials(start, all.take(i as int), overwrite),
            decreases queries.len() - i,
        {
            let query = queries[i];
            let query_key = query.key();
            proof {
                assert(all.take(i + 1).drop_last() =~= all.take(i as int));
                assert(all.take(i + 1).last() == query@);
            }
            let ghost earlier = effect_views(effects@);
            if overwrite {
                match self.entries.insert(query_key, query.clone()) {
                    None => (),
                    Some(previous) => {
                        effects.push(Effect::Bury(previous));
                        assert(effect_views(effects@) =~= earlier.push(EffectView::Bury(previous@)));
                    },
                }
            } else {
                if !self.entries.contains_key(&query_key) {
                    self.entries.insert(query_key, query.clone());
                }
            }
            i += 1;
        }
        assert(all.take(i as int) =~= all);
        let ghost burials = effect_views(effects@);
        effects.push(Effect::RewriteCache);
        assert(effect_views(effects@) =~= burials.push(EffectView::RewriteCache));
        effects
    }
}

/// A batch keeps the keys apart.
pub proof fn lemma_merge_keeps_keys_distinct(
    entries: Seq<EntryView>,
    queries: Seq<QueryView>,
    overwrite: bool,
)
    requires
        distinct_keys(entries),
    ensures
        distinct_keys(merge(entries, queries, overwrite)),
    decreases queries.len(),
{
    if queries.len() > 0 {
        lemma_merge_keeps_keys_distinct(entries, queries.drop_last(), overwrite);
        let before = merge(entries, queries.drop_last(), overwrite);
        lemma_put(before, queries.last().key(), queries.last());
    }
}

/// The burials of a batch are burials and nothing else.
pub proof fn lemma_merge_burials_only_bury(
    entries: Seq<EntryView>,
    queries: Seq<QueryView>,
    overwrite: bool,
)
    ensures
        cache_rewrites(merge_burials(entries, queries, overwrite)) == 0,
        !merge_burials(entries, queries, overwrite).contains(EffectView::RewriteBill),
        !merge_burials(entries, queries, overwrite).contains(EffectView::ClearGraveyard),
        !overwrite ==> merge_burials(entries, queries, overwrite) == Seq::<EffectView>::empty(),
    decreases queries.len(),
{
    if queries.len() > 0 {
        lemma_merge_burials_only_bury(entries, queries.drop_last(), overwrite);
        let earlier = merge_burials(entries, queries.drop_last(), overwrite);
        let all = merge_burials(entries, queries, overwrite);
        if all != earlier {
            assert(all.drop_last() =~= earlier);
            if all.contains(EffectView::RewriteBill) {
                let i = choose|i: int| 0 <= i < all.len() && all[i] == EffectView::RewriteBill;
                assert(earlier[i] == EffectView::RewriteBill);
            }
            if all.contains(EffectView::ClearGraveyard) {
                let i = choose|i: int| 0 <= i < all.len() && all[i] == EffectView::ClearGraveyard;
                assert(earlier[i] == EffectView::ClearGraveyard);
            }
        }
    }
}

/// Every operation keeps the keys apart.
pub proof fn lemma_op_keeps_keys_distinct(entries: Seq<EntryView>, op: CacheOp)
    requires
        distinct_keys(entries),
    ensures
        distinct_keys(op.entries_after(entries)),
{
    match op {
        CacheOp::Insert(query) => {
            lemma_put(entries, query.key(), query);
        },
        CacheOp::InsertMany(queries, overwrite) => {
            lemma_merge_keeps_keys_distinct(entries, queries, overwrite);
        },
        CacheOp::Remove(key) => {
            lemma_del(entries, key);
        },
        CacheOp::Clear => {
            assert(crate::models::entries::keys_of(Seq::<EntryView>::empty()) =~= Seq::<
                Seq<char>,
            >::empty());
        },
    }
}

/// How often an operation has the mirror rewritten: a removal that finds
/// nothing not at all, every other operation exactly once, a batch too.
pub proof fn lemma_op_rewrites_once(entries: Seq<EntryView>, op: CacheOp)
    ensures
        cache_rewrites(op.effects(entries)) == if op matches CacheOp::Remove(key) && !has_key(
            entries,
            key,
        ) {
            0nat
        } else {
            1nat
        },
        !op.effects(entries).contains(EffectView::RewriteBill),
        !op.effects(entries).contains(EffectView::ClearGraveyard),
{
    let effects = op.effects(entries);
    match op {
        CacheOp::Insert(query) => {
            match lookup(entries, query.key()) {
                Some(previous) => {
                    assert(effects.drop_last() =~= seq![EffectView::Bury(previous)]);
                    assert(effects.drop_last().drop_last() =~= Seq::<EffectView>::empty());
                    reveal_with_fuel(cache_rewrites, 3);
                },
                None => {
                    assert(effects.drop_last() =~= Seq::<EffectView>::empty());
                    reveal_with_fuel(cache_rewrites, 2);
                },
            }
        },
        CacheOp::InsertMany(queries, overwrite) => {
            lemma_merge_burials_only_bury(entries, queries, overwrite);
            let burials = merge_burials(entries, queries, overwrite);
            assert(effects.drop_last() =~= burials);
            if effects.contains(EffectView::RewriteBill) {
                let i = choose|i: int|
                    0 <= i < effects.len() && effects[i] == EffectView::RewriteBill;
                assert(burials[i] == EffectView::RewriteBill);
            }
            if effects.contains(EffectView::ClearGraveyard) {
                let i = choose|i: int|
                    0 <= i < effects.len() && effects[i] == EffectView::ClearGraveyard;
                assert(burials[i] == EffectView::ClearGraveyard);
            }
        },
        CacheOp::Remove(key) => {
            if has_key(entries, key) {
                assert(effects.drop_last() =~= Seq::<EffectView>::empty());
                reveal_with_fuel(cache_rewrites, 2);
            }
        },
        CacheOp::Clear => {
            assert(effects.drop_last() =~= Seq::<EffectView>::empty());
            reveal_with_fuel(cache_rewrites, 2);
        },
    }
}

/// An operation that has nothing written leaves the entries as they were.
pub proof fn lemma_no_change_without_rewrite(entries: Seq<EntryView>, op: CacheOp)
    requires
        cache_rewrites(op.effects(entries)) == 0,
    ensures
        op.entries_after(entries) == entries,
{
    lemma_op_rewrites_once(entries, op);
}

/// One step of cache and mirror together: once the caller has carried out
/// what an operation owes, the mirror holds the entries again, and the
/// graveyard has lost nothing.
pub proof fn lemma_mirror_follows_entries(
    disk: Disk,
    entries: Seq<EntryView>,
    bill: BillView,
    op: CacheOp,
)
    requires
        disk.cache == entries,
    ensures
        disk.after_all(op.effects(entries), op.entries_after(entries), bill).cache
            == op.entries_after(entries),
        disk.after_all(op.effects(entries), op.entries_after(entries), bill).graveyard
            == disk.graveyard + buried(op.effects(entries)),
        disk.after_all(op.effects(entries), op.entries_after(entries), bill).bill == disk.bill,
{
    lemma_op_rewrites_once(entries, op);
    disk.lemma_after_all(op.effects(entries), op.entries_after(entries), bill);
    if cache_rewrites(op.effects(entries)) == 0 {
        lemma_no_change_without_rewrite(entries, op);
    }
}

/// The entries after a sequence of operations.
pub open spec fn entries_after_all(entries: Seq<EntryView>, ops: Seq<CacheOp>) -> Seq<EntryView>
    decreases ops.len(),
{
    if ops.len() == 0 {
        entries
    } else {
        ops.last().entries_after(entries_after_all(entries, ops.drop_last()))
    }
}

/// The files after a sequence of operations, the caller having carried out
/// after each operation what it owes.
pub open spec fn disk_after_all(
    disk: Disk,
    entries: Seq<EntryView>,
    bill: BillView,
    ops: Seq<CacheOp>,
) -> Disk
    decreases ops.len(),
{
    if ops.len() == 0 {
        disk
    } else {
        let before = entries_after_all(entries, ops.drop_last());
        disk_after_all(disk, entries, bill, ops.drop_last()).after_all(
            ops.last().effects(before),
            ops.last().entries_after(before),
            bill,
        )
    }
}

/// Cache and mirror stay in step: if the mirror holds the entries, then after
/// any sequence of insertions, batches, removals and clearings it holds the
/// entries again, and whatever the graveyard held is still its beginning.
pub proof fn lemma_mirror_follows_any_sequence(
    disk: Disk,
    entries: Seq<EntryView>,
    bill: BillView,
    ops: Seq<CacheOp>,
)
    requires
        disk.cache == entries,
    ensures
        disk_after_all(disk, entries, bill, ops).cache == entries_after_all(entries, ops),
        disk.graveyard.is_prefix_of(disk_after_all(disk, entries, bill, ops).graveyard),
        disk_after_all(disk, entries, bill, ops).bill == disk.bill,
    decreases ops.len(),
{
    if ops.len() > 0 {
        lemma_mirror_follows_any_sequence(disk, entries, bill, ops.drop_last());
        let before = entries_after_all(entries, ops.drop_last());
        let disk_before = disk_after_all(disk, entries, bill, ops.drop_last());
        lemma_mirror_follows_entries(disk_before, before, bill, ops.last());
    }
}

/// Overwriting buries the old and keeps the new: where the query's key
/// already leads to a query, an insertion sends exactly that older query to
/// the graveyard, and afterwards the key leads to the new query.
pub proof fn lemma_overwrite_buries_the_old(
    disk: Disk,
    entries: Seq<EntryView>,
    bill: BillView,
    query: QueryView,
)
    requires
        distinct_keys(entries),
        has_key(entries, query.key()),
    ensures
        buried(CacheOp::Insert(query).effects(entries)) == seq![
            lookup(entries, query.key())->Some_0,
        ],
        disk.after_all(
            CacheOp::Insert(query).effects(entries),
            CacheOp::Insert(query).entries_after(entries),
            bill,
        ).graveyard == disk.graveyard.push(lookup(entries, query.key())->Some_0),
        lookup(CacheOp::Insert(query).entries_after(entries), query.key()) == Some(query),
{
    let op = CacheOp::Insert(query);
    let effects = op.effects(entries);
    let previous = lookup(entries, query.key())->Some_0;
    lemma_put(entries, query.key(), query);
    lemma_op_rewrites_once(entries, op);
    assert(effects.drop_last() =~= seq![EffectView::Bury(previous)]);
    assert(effects.drop_last().drop_last() =~= Seq::<EffectView>::empty());
    reveal_with_fuel(buried, 3);
    assert(buried(effects) =~= seq![previous]);
    disk.lemma_after_all(effects, op.entries_after(entries), bill);
    assert(disk.graveyard + seq![previous] =~= disk.graveyard.push(previous));
}

} // verus!

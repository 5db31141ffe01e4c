//! The account's side of the store: queries as rows, rows as queries, and
//! what is to be written when cache and store are brought together.
//!
//! The store has one table for each kind of query. Reading and writing the
//! tables is the caller's part; what is written, and what a row that was read
//! means, is decided here.

use vstd::prelude::*;
use crate::models::cache::{query_views, Cache, CacheOp};
use crate::models::client::account::DbMethods;
use crate::models::effects::{effect_views, Effect};
use crate::models::entries::{entry_views, lookup, put_all, Entries, EntryView};
use crate::models::gpt_models::GptModel;
use crate::models::hash::{calculate_hash, key_hash};
use crate::models::queries::chat_query::{ChatQuery, ChatQueryView};
use crate::models::queries::meta_query::{MetaQuery, MetaQueryView};
use crate::models::queries::text_query::{TextQuery, TextQueryView};
use crate::models::query::{Query, QueryView};
use crate::models::response::{ChatCompletionResponse, ChatCompletionResponseView};
use crate::models::temperature::Temperature;

verus! {

/// The date and time of day without a time zone, as the store's rows hold
/// it. The library carries such a value and never looks into it.
#[verifier::external_type_specification]
#[verifier::external_body]
pub struct ExNaiveDateTime(chrono::NaiveDateTime);

/// Reads the clock.
///
/// Calls `chrono::Utc::now` and `DateTime::naive_local`: the result is the
/// current date and time in UTC. It changes from call to call, so nothing is
/// claimed of it. Where the system's clock stands before the year 1970,
/// `chrono` panics.
#[verifier::external_body]
fn now() -> chrono::NaiveDateTime {
    chrono::Utc::now().naive_local()
}

/// One of the store's three tables.
#[derive(Debug, Clone, Copy, PartialEq, Eq, Structural)]
pub enum Table {
    ChatCompletions,
    TextCompletions,
    MetaCompletions,
}

/// Which kind of query a row stands for. A document query's row also holds
/// the document's title.
#[derive(Debug, PartialEq)]
pub enum RowKind {
    Chat,
    Text(String),
    Meta,
}

pub enum RowKindView {
    Chat,
    Text(Seq<char>),
    Meta,
}

impl View for RowKind {
    type V = RowKindView;

    open spec fn view(&self) -> RowKindView {
        match self {
            RowKind::Chat => RowKindView::Chat,
            RowKind::Text(title) => RowKindView::Text(title@),
            RowKind::Meta => RowKindView::Meta,
        }
    }
}

impl RowKindView {
    /// The table that holds rows of this kind.
    pub open spec fn table(self) -> Table {
        match self {
            RowKindView::Chat => Table::ChatCompletions,
            RowKindView::Text(_) => Table::TextCompletions,
            RowKindView::Meta => Table::MetaCompletions,
        }
    }
}

impl Clone for RowKind {
    fn clone(&self) -> (copy: Self)
        ensures
            copy@ == self@,
    {
        match self {
            RowKind::Chat => RowKind::Chat,
            RowKind::Text(title) => RowKind::Text(title.clone()),
            RowKind::Meta => RowKind::Meta,
        }
    }
}

impl RowKind {
    /// The table that holds rows of this kind.
    pub fn table(&self) -> (table: Table)
        ensures
            table == self@.table(),
    {
        match self {
            RowKind::Chat => Table::ChatCompletions,
            RowKind::Text(_) => Table::TextCompletions,
            RowKind::Meta => Table::MetaCompletions,
        }
    }
}

/// The columns of a row, but for the number that the store gives it.
#[derive(Debug, PartialEq)]
pub struct Row {
    pub kind: RowKind,
    /// When the row was made.
    pub timestamp: chrono::NaiveDateTime,
    /// The name of the model.
    pub model: String,
    pub temperature: Temperature,
    pub prompt: String,
    /// The cache key of the query.
    pub query_key: String,
    /// The hash of the cache key, by which a row is found again.
    pub query_key_hash: String,
    pub prompt_tokens: i32,
    pub completion_tokens: i32,
    pub total_tokens: i32,
    /// The query's processing time, cut to 32 bits.
    pub process_time: i32,
    pub response: ChatCompletionResponse,
    /// The cost, in microcents.
    pub cost: i64,
}

/// A row as the contracts speak of it: every column but the time at which
/// the row was made.
pub struct RowView {
    pub kind: RowKindView,
    pub model: Seq<char>,
    pub temperature: Temperature,
    pub prompt: Seq<char>,
    pub query_key: Seq<char>,
    pub query_key_hash: Seq<char>,
    pub prompt_tokens: i32,
    pub completion_tokens: i32,
    pub total_tokens: i32,
    pub process_time: i32,
    pub response: ChatCompletionResponseView,
    pub cost: int,
}

impl View for Row {
    type V = RowView;

    open spec fn view(&self) -> RowView {
        RowView {
            kind: self.kind@,
            model: self.model@,
            temperature: self.temperature,
            prompt: self.prompt@,
            query_key: self.query_key@,
            query_key_hash: self.query_key_hash@,
            prompt_tokens: self.prompt_tokens,
            completion_tokens: self.completion_tokens,
            total_tokens: self.total_tokens,
            process_time: self.process_time,
            response: self.response@,
            cost: self.cost as int,
        }
    }
}

/// The kind of row that stands for a query.
pub open spec fn kind_of(query: QueryView) -> RowKindView {
    match query {
        QueryView::ChatQuery(_) => RowKindView::Chat,
        QueryView::TextQuery(q) => RowKindView::Text(q.document_title),
        QueryView::MetaQuery(_) => RowKindView::Meta,
    }
}

/// The row that stands for the query kept under the key: the model by its
/// name, the key and its hash, the usage of the response, the processing time
/// cut to 32 bits, and the rest as the query holds it.
pub open spec fn row_of(key: Seq<char>, query: QueryView) -> RowView {
    RowView {
        kind: kind_of(query),
        model: query.model().name(),
        temperature: query.temperature(),
        prompt: query.prompt(),
        query_key: key,
        query_key_hash: key_hash(key),
        prompt_tokens: query.usage().prompt_tokens,
        completion_tokens: query.usage().completion_tokens,
        total_tokens: query.usage().total_tokens,
        process_time: query.process_time() as i32,
        response: query.response(),
        cost: query.cost(),
    }
}

/// The query that a row stands for, marked as read back. The usage columns
/// and the key columns are not read: the response holds the usage, and the
/// query names its key. The row's model must be the name of a model.
pub open spec fn query_of(row: RowView) -> QueryView {
    let model = GptModel::named(row.model)->Some_0;
    match row.kind {
        RowKindView::Chat => QueryView::ChatQuery(
            ChatQueryView {
                prompt: row.prompt,
                cost: row.cost,
                response: row.response,
                process_time: row.process_time as u64,
                model,
                temperature: row.temperature,
                from_cache: true,
            },
        ),
        RowKindView::Text(document_title) => QueryView::TextQuery(
            TextQueryView {
                prompt: row.prompt,
                cost: row.cost,
                response: row.response,
                process_time: row.process_time as u64,
                model,
                document_title,
                temperature: row.temperature,
                from_cache: true,
            },
        ),
        RowKindView::Meta => QueryView::MetaQuery(
            MetaQueryView {
                prompt: row.prompt,
                cost: row.cost,
                response: row.response,
                process_time: row.process_time as u64,
                model,
                temperature: row.temperature,
                from_cache: true,
            },
        ),
    }
}

impl Clone for Row {
    fn clone(&self) -> (copy: Self)
        ensures
            copy@ == self@,
            copy.timestamp == self.timestamp,
    {
        Row {
            kind: self.kind.clone(),
            timestamp: self.timestamp,
            model: self.model.clone(),
            temperature: self.temperature,
            prompt: self.prompt.clone(),
            query_key: self.query_key.clone(),
            query_key_hash: self.query_key_hash.clone(),
            prompt_tokens: self.prompt_tokens,
            completion_tokens: self.completion_tokens,
            total_tokens: self.total_tokens,
            process_time: self.process_time,
            response: self.response.clone(),
            cost: self.cost,
        }
    }
}

impl Row {
    /// The row that stands for the query kept under the key, made now.
    pub fn of_entry(cache_key: &String, query: &Query) -> (row: Row)
        ensures
            row@ == row_of(cache_key@, query@),
    {
        let timestamp = now();
        let query_key_hash = calculate_hash(cache_key);
        match query {
            Query::ChatQuery(query) => Row {
                kind: RowKind::Chat,
                timestamp,
                model: query.model.to_string(),
                temperature: query.temperature,
                prompt: query.prompt.clone(),
                query_key: cache_key.clone(),
                prompt_tokens: query.response.usage.prompt_tokens,
                completion_tokens: query.response.usage.completion_tokens,
                total_tokens: query.response.usage.total_tokens,
                process_time: #[verifier::truncate]
                (query.process_time as i32),
                response: query.response.clone(),
                cost: query.cost,
                query_key_hash,
            },
            Query::TextQuery(query) => Row {
                kind: RowKind::Text(query.document_title.clone()),
                timestamp,
                model: query.model.to_string(),
                temperature: query.temperature,
                prompt: query.prompt.clone(),
                query_key: cache_key.clone(),
                prompt_tokens: query.response.usage.prompt_tokens,
                completion_tokens: query.response.usage.completion_tokens,
                total_tokens: query.response.usage.total_tokens,
                process_time: #[verifier::truncate]
                (query.process_time as i32),
                response: query.response.clone(),
                cost: query.cost,
                query_key_hash,
            },
            Query::MetaQuery(query) => Row {
                kind: RowKind::Meta,
                timestamp,
                model: query.model.to_string(),
                temperature: query.temperature,
                prompt: query.prompt.clone(),
                query_key: cache_key.clone(),
                prompt_tokens: query.response.usage.prompt_tokens,
                completion_tokens: query.response.usage.completion_tokens,
                total_tokens: query.response.usage.total_tokens,
                process_time: #[verifier::truncate]
                (query.process_time as i32),
                response: query.response.clone(),
                cost: query.cost,
                query_key_hash,
            },
        }
    }

    /// Whether the row's model is the name of a model, so that the row can be
    /// read as a query.
    pub fn has_known_model(&self) -> (known: bool)
        ensures
            known == GptModel::named(self.model@) is Some,
    {
        GptModel::parse(self.model.as_str()).is_some()
    }

    /// The query that the row stands for, marked as read back.
    pub fn to_query(self) -> (query: Query)
        requires
            GptModel::named(self.model@) is Some,
        ensures
            query@ == query_of(self@),
    {
        let model = GptModel::from_string(&self.model);
        let process_time = #[verifier::truncate]
        (self.process_time as u64);
        match self.kind {
            RowKind::Chat => Query::ChatQuery(
                ChatQuery {
                    prompt: self.prompt,
                    cost: self.cost,
                    response: self.response,
                    process_time,
                    model,
                    temperature: self.temperature,
                    from_cache: true,
                },
            ),
            RowKind::Text(document_title) => Query::TextQuery(
                TextQuery {
                    prompt: self.prompt,
                    document_title,
                    response: self.response,
                    process_time,
                    model,
                    temperature: self.temperature,
                    cost: self.cost,
                    from_cache: true,
                },
            ),
            RowKind::Meta => Query::MetaQuery(
                MetaQuery {
                    prompt: self.prompt,
                    cost: self.cost,
                    response: self.response,
                    process_time,
                    model,
                    temperature: self.temperature,
                    from_cache: true,
                },
            ),
        }
    }
}

/// A query that went to the store and came back is the same query, marked as
/// read back, provided its processing time fits in 31 bits.
pub proof fn lemma_row_round_trip(key: Seq<char>, query: QueryView)
    requires
        query.process_time() <= i32::MAX,
    ensures
        GptModel::named(row_of(key, query).model) is Some,
        query_of(row_of(key, query)) == query.cached(),
{
    query.model().lemma_name_round_trip();
    let t = query.process_time();
    assert((t as i32) as u64 == t) by (bit_vector)
        requires
            t <= 0x7fff_ffffu64,
    ;
}

/// A row as the store holds it: the columns and the number that the store
/// gave the row.
#[derive(Debug, PartialEq)]
pub struct StoredRow {
    pub rid: i32,
    pub row: Row,
}

pub struct StoredRowView {
    pub rid: i32,
    pub row: RowView,
}

impl View for StoredRow {
    type V = StoredRowView;

    open spec fn view(&self) -> StoredRowView {
        StoredRowView { rid: self.rid, row: self.row@ }
    }
}

/// The views of a sequence of rows, in order.
pub open spec fn row_views(rows: Seq<Row>) -> Seq<RowView> {
    rows.map_values(|r: Row| r@)
}

/// The views of a sequence of stored rows, in order.
pub open spec fn stored_views(rows: Seq<StoredRow>) -> Seq<StoredRowView> {
    rows.map_values(|r: StoredRow| r@)
}

/// Whether each of the rows names a model.
pub open spec fn models_known(rows: Seq<StoredRowView>) -> bool {
    forall|i: int| 0 <= i < rows.len() ==> GptModel::named((#[trigger] rows[i]).row.model) is Some
}

/// The queries that the rows stand for, in order.
pub open spec fn stored_queries(rows: Seq<StoredRowView>) -> Seq<QueryView> {
    rows.map_values(|r: StoredRowView| query_of(r.row))
}

/// The rows as entries: each row's query under the row's key, in order.
pub open spec fn stored_entries(rows: Seq<StoredRowView>) -> Seq<EntryView> {
    rows.map_values(|r: StoredRowView| (r.row.query_key, query_of(r.row)))
}

/// The rows that go to one table when the entries are written to the store:
/// one for each entry whose query is of the table's kind, in the order of the
/// entries.
pub open spec fn rows_for(entries: Seq<EntryView>, table: Table) -> Seq<RowView>
    decreases entries.len(),
{
    if entries.len() == 0 {
        Seq::empty()
    } else {
        let earlier = rows_for(entries.drop_last(), table);
        let last = entries.last();
        if kind_of(last.1).table() == table {
            earlier.push(row_of(last.0, last.1))
        } else {
            earlier
        }
    }
}

/// What goes to the store when the cache is written to it: one batch of rows
/// for each table.
///
/// Before the batches are written, every row in the store whose key hash
/// is that of a row in the batch for its table is to be displaced: see
/// [`DbMethods::displace`].
#[derive(Debug, PartialEq)]
pub struct InsertPlan {
    pub chat_completions: Vec<Row>,
    pub text_completions: Vec<Row>,
    pub meta_completions: Vec<Row>,
}

/// One thing to do with a row that the store already holds.
#[derive(Debug, PartialEq)]
pub enum StoreAction {
    /// Append the row to the graveyard.
    Bury(StoredRow),
    /// Delete from the table the row with the number.
    Delete(Table, i32),
}

impl DbMethods {
    /// The rows that go to the store when the whole cache is written to it,
    /// all made now.
    pub fn insert_cache(&self, cache: &Cache) -> (plan: InsertPlan)
        ensures
            row_views(plan.chat_completions@) == rows_for(cache.entries@, Table::ChatCompletions),
            row_views(plan.text_completions@) == rows_for(cache.entries@, Table::TextCompletions),
            row_views(plan.meta_completions@) == rows_for(cache.entries@, Table::MetaCompletions),
    {
        let pairs = cache.entries.pairs();
        let ghost entries = cache.entries@;
        let mut chat_models: Vec<Row> = Vec::new();
        let mut text_models: Vec<Row> = Vec::new();
        let mut meta_models: Vec<Row> = Vec::new();
        let mut i: usize = 0;
        assert(entries.take(0) =~= Seq::<EntryView>::empty());
        assert(row_views(chat_models@) =~= Seq::<RowView>::empty());
        assert(row_views(text_models@) =~= Seq::<RowView>::empty());
        assert(row_views(meta_models@) =~= Seq::<RowView>::empty());
        while i < pairs.len()
            invariant
                i <= pairs.len(),
                entries == entry_views(pairs@),
                row_views(chat_models@) == rows_for(entries.take(i as int), Table::ChatCompletions),
                row_views(text_models@) == rows_for(entries.take(i as int), Table::TextCompletions),
                row_views(meta_models@) == rows_for(entries.take(i as int), Table::MetaCompletions),
            decreases pairs.len() - i,
        {
            proof {
                assert(entries.take(i + 1).drop_last() =~= entries.take(i as int));
                assert(entries.take(i + 1).last() == entries[i as int]);
            }
            let row = Row::of_entry(&pairs[i].0, &pairs[i].1);
            let ghost chat = row_views(chat_models@);
            let ghost text = row_views(text_models@);
            let ghost meta = row_views(meta_models@);
            match row.kind.table() {
                Table::ChatCompletions => {
                    chat_models.push(row);
                    assert(row_views(chat_models@) =~= chat.push(row@));
                },
                Table::TextCompletions => {
                    text_models.push(row);
                    assert(row_views(text_models@) =~= text.push(row@));
                },
                Table::MetaCompletions => {
                    meta_models.push(row);
                    assert(row_views(meta_models@) =~= meta.push(row@));
                },
            }
            i += 1;
        }
        assert(entries.take(i as int) =~= entries);
        InsertPlan {
            chat_completions: chat_models,
            text_completions: text_models,
            meta_completions: meta_models,
        }
    }

    /// What is to be done with the row that the store holds under the key
    /// hash of a row about to be written: nothing where there is none; else
    /// the row is buried in the graveyard first and deleted from its table
    /// after.
    pub fn displace(&self, found: Option<StoredRow>) -> (actions: Vec<StoreAction>)
        ensures
            match found {
                Some(stored) => actions@ == seq![
                    StoreAction::Bury(stored),
                    StoreAction::Delete(stored.row@.kind.table(), stored.rid),
                ],
                None => actions@ == Seq::<StoreAction>::empty(),
            },
    {
        let mut actions: Vec<StoreAction> = Vec::new();
        match found {
            Some(stored) => {
                let table = stored.row.kind.table();
                let rid = stored.rid;
                actions.push(StoreAction::Bury(stored));
                actions.push(StoreAction::Delete(table, rid));
                assert(actions@ =~= seq![
                    StoreAction::Bury(stored),
                    StoreAction::Delete(stored.row@.kind.table(), stored.rid),
                ]);
            },
            None => {},
        }
        actions
    }

    /// The row that goes to the store when the entry with the key is written
    /// to it, made now; `None` where the cache has no such entry. The cache is
    /// not changed, and no row of the store is displaced: written twice, an
    /// entry has two rows.
    pub fn insert_query(&self, cache_key: String, cache: &Cache) -> (row: Option<Row>)
        ensures
            match lookup(cache.entries@, cache_key@) {
                Some(query) => row matches Some(row) && row@ == row_of(cache_key@, query),
                None => row is None,
            },
    {
        match cache.entries.get(&cache_key) {
            Some(query) => Some(Row::of_entry(&cache_key, query)),
            None => None,
        }
    }

    /// Whether each of the rows names a model, so that the rows can be read
    /// as queries.
    pub fn models_known(&self, rows: &Vec<StoredRow>) -> (known: bool)
        ensures
            known == models_known(stored_views(rows@)),
    {
        let mut i: usize = 0;
        while i < rows.len()
            invariant
                i <= rows.len(),
                forall|j: int|
                    0 <= j < i ==> GptModel::named((#[trigger] stored_views(rows@)[j]).row.model)
                        is Some,
            decreases rows.len() - i,
        {
            if !rows[i].row.has_known_model() {
                assert(stored_views(rows@)[i as int].row.model == rows@[i as int].row.model@);
                return false;
            }
            i += 1;
        }
        true
    }

    /// Brings the rows of the store into the cache: the rows of the document
    /// table first, then those of the chat table, then those of the meta
    /// table, each read as a query marked as read back and merged as
    /// [`Cache::insert_many`] merges. Hands back the entries as they were
    /// before, and the writes that the merge owes.
    pub fn read_all_to_cache(
        &mut self,
        cache: &mut Cache,
        text_rows: Vec<StoredRow>,
        chat_rows: Vec<StoredRow>,
        meta_rows: Vec<StoredRow>,
        overwrite: bool,
    ) -> (read: (Entries, Vec<Effect>))
        requires
            models_known(stored_views(text_rows@)),
            models_known(stored_views(chat_rows@)),
            models_known(stored_views(meta_rows@)),
        ensures
            read.0@ == old(cache).entries@,
            final(cache).entries@ == CacheOp::InsertMany(
                stored_queries(
                    stored_views(text_rows@) + stored_views(chat_rows@) + stored_views(meta_rows@),
                ),
                overwrite,
            ).entries_after(old(cache).entries@),
            effect_views(read.1@) == CacheOp::InsertMany(
                stored_queries(
                    stored_views(text_rows@) + stored_views(chat_rows@) + stored_views(meta_rows@),
                ),
                overwrite,
            ).effects(old(cache).entries@),
            final(cache).filepath == old(cache).filepath,
            *final(self) == *old(self),
    {
        let previous_state = cache.entries.clone();
        let ghost all = stored_views(text_rows@) + stored_views(chat_rows@) + stored_views(
            meta_rows@,
        );
        let mut queries: Vec<Query> = Vec::new();
        assert(query_values(queries@) =~= Seq::<QueryView>::empty());
        read_queries(&mut queries, text_rows);
        read_queries(&mut queries, chat_rows);
        read_queries(&mut queries, meta_rows);
        assert(query_values(queries@) =~= stored_queries(all));
        let mut borrowed: Vec<&Query> = Vec::new();
        let mut i: usize = 0;
        while i < queries.len()
            invariant
                i <= queries.len(),
                borrowed.len() == i,
                forall|j: int| 0 <= j < i ==> (#[trigger] borrowed@[j])@ == queries@[j]@,
            decreases queries.len() - i,
        {
            borrowed.push(&queries[i]);
            i += 1;
        }
        assert(query_views(borrowed@) =~= stored_queries(all));
        let effects = cache.insert_many(borrowed, overwrite);
        (previous_state, effects)
    }

    /// The rows of the store as entries: the rows of the chat table first,
    /// then those of the document table, then those of the meta table, each
    /// read as a query marked as read back and kept under the row's key. A
    /// later row replaces an earlier one that has the same key.
    pub fn read_all(
        &self,
        chat_rows: Vec<StoredRow>,
        text_rows: Vec<StoredRow>,
        meta_rows: Vec<StoredRow>,
    ) -> (entries: Entries)
        requires
            models_known(stored_views(chat_rows@)),
            models_known(stored_views(text_rows@)),
            models_known(stored_views(meta_rows@)),
        ensures
            entries@ == put_all(
                Seq::empty(),
                stored_entries(
                    stored_views(chat_rows@) + stored_views(text_rows@) + stored_views(meta_rows@),
                ),
            ),
    {
        let ghost all = stored_views(chat_rows@) + stored_views(text_rows@) + stored_views(
            meta_rows@,
        );
        let mut pairs: Vec<(String, Query)> = Vec::new();
        assert(entry_views(pairs@) =~= Seq::<EntryView>::empty());
        read_pairs(&mut pairs, chat_rows);
        read_pairs(&mut pairs, text_rows);
        read_pairs(&mut pairs, meta_rows);
        assert(entry_views(pairs@) =~= stored_entries(all));
        Entries::from_pairs(pairs)
    }
}

/// The views of a sequence of queries, in order.
pub open spec fn query_values(queries: Seq<Query>) -> Seq<QueryView> {
    queries.map_values(|q: Query| q@)
}

fn read_queries(queries: &mut Vec<Query>, rows: Vec<StoredRow>)
    requires
        models_known(stored_views(rows@)),
    ensures
        query_values(final(queries)@) == query_values(old(queries)@) + stored_queries(
            stored_views(rows@),
        ),
{
    let ghost all = stored_views(rows@);
    let ghost start = query_values(queries@);
    let ghost given = rows@;
    assert(start + stored_queries(all.take(0)) =~= start);
    for stored in it: rows
        invariant
            it.seq() == given,
            all == stored_views(given),
            models_known(all),
            query_values(queries@) == start + stored_queries(all.take(it.index() as int)),
    {
        let ghost before = query_values(queries@);
        assert(all[it.index() as int] == stored@);
        let query = stored.row.to_query();
        queries.push(query);
        assert(query_values(queries@) =~= before.push(query@));
        assert(start + stored_queries(all.take(it.index() + 1)) =~= (start + stored_queries(
            all.take(it.index() as int),
        )).push(query@));
    }
    assert(all.take(all.len() as int) =~= all);
}

fn read_pairs(pairs: &mut Vec<(String, Query)>, rows: Vec<StoredRow>)
    requires
        models_known(stored_views(rows@)),
    ensures
        entry_views(final(pairs)@) == entry_views(old(pairs)@) + stored_entries(
            stored_views(rows@),
        ),
{
    let ghost all = stored_views(rows@);
    let ghost start = entry_views(pairs@);
    let ghost given = rows@;
    assert(start + stored_entries(all.take(0)) =~= start);
    for stored in it: rows
        invariant
            it.seq() == given,
            all == stored_views(given),
            models_known(all),
            entry_views(pairs@) == start + stored_entries(all.take(it.index() as int)),
    {
        let ghost before = entry_views(pairs@);
        assert(all[it.index() as int] == stored@);
        let key = stored.row.query_key.clone();
        let query = stored.row.to_query();
        pairs.push((key, query));
        assert(entry_views(pairs@) =~= before.push((key@, query@)));
        assert(start + stored_entries(all.take(it.index() + 1)) =~= (start + stored_entries(
            all.take(it.index() as int),
        )).push((key@, query@)));
    }
    assert(all.take(all.len() as int) =~= all);
}

} // verus!

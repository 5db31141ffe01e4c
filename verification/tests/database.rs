use openai_rs::models::cache::Cache;
use openai_rs::models::client::account::DbMethods;
use openai_rs::models::client::database::{
    InsertPlan, Row, RowKind, StoreAction, StoredRow, Table,
};
use openai_rs::models::effects::Effect;
use openai_rs::models::entries::Entries;
use openai_rs::models::gpt_models::GptModel;
use openai_rs::models::hash::calculate_hash;
use openai_rs::models::req_and_res::{ChatCompletionMessage, MessageRole, Usage};
use openai_rs::models::response::{ChatCompletionChoice, ChatCompletionResponse, FinishReason};
use openai_rs::models::temperature::Temperature;
use openai_rs::{Cacheable, ChatQuery, MetaQuery, Query, TextQuery};

fn response(id: &str) -> ChatCompletionResponse {
    ChatCompletionResponse {
        id: id.to_string(),
        object: "chat.completion".to_string(),
        created: 1_700_000_000,
        model: "gpt-3.5-turbo".to_string(),
        choices: vec![ChatCompletionChoice {
            index: 0,
            message: ChatCompletionMessage {
                role: MessageRole::assistant,
                content: Some(format!("answer of {id}")),
                name: None,
                function_call: None,
            },
            finish_reason: FinishReason::stop,
        }],
        usage: Usage { prompt_tokens: 11, completion_tokens: 22, total_tokens: 33 },
    }
}

fn chat(prompt: &str, id: &str) -> Query {
    Query::ChatQuery(ChatQuery {
        prompt: prompt.to_string(),
        cost: 5_500,
        response: response(id),
        process_time: 2,
        model: GptModel::Gpt35Turbo,
        temperature: Temperature::from_bits(0.5f32.to_bits()),
        from_cache: false,
    })
}

fn text(title: &str, prompt: &str, id: &str) -> Query {
    Query::TextQuery(TextQuery {
        prompt: prompt.to_string(),
        cost: 77,
        response: response(id),
        process_time: 2000,
        model: GptModel::Gpt4,
        document_title: title.to_string(),
        temperature: Temperature::from_bits(0.25f32.to_bits()),
        from_cache: false,
    })
}

fn meta(prompt: &str, id: &str) -> Query {
    Query::MetaQuery(MetaQuery {
        prompt: prompt.to_string(),
        cost: 99,
        response: response(id),
        process_time: 3000,
        model: GptModel::Gpt432k0314,
        temperature: Temperature::from_bits(1.0f32.to_bits()),
        from_cache: false,
    })
}

fn read_back(query: &Query) -> Query {
    let mut query = query.clone();
    match &mut query {
        Query::ChatQuery(q) => q.from_cache = true,
        Query::TextQuery(q) => q.from_cache = true,
        Query::MetaQuery(q) => q.from_cache = true,
    }
    query
}

fn stored(rid: i32, query: &Query) -> StoredRow {
    StoredRow { rid, row: Row::of_entry(&query.key(), query) }
}

fn db() -> DbMethods {
    DbMethods { connected: true }
}

fn cache_of(queries: &[Query]) -> Cache {
    let mut cache = Cache::default();
    for query in queries {
        cache.insert(query);
    }
    cache
}

fn keys(rows: &Vec<Row>) -> Vec<String> {
    rows.iter().map(|row| row.query_key.clone()).collect()
}

#[test]
fn a_row_holds_the_columns_of_its_query() {
    let key = "report: Summarize.".to_string();
    let query = text("report", "Summarize.", "id-1");
    let row = Row::of_entry(&key, &query);
    assert_eq!(row.kind, RowKind::Text("report".to_string()));
    assert_eq!(row.kind.table(), Table::TextCompletions);
    assert_eq!(row.model, "gpt-4");
    assert_eq!(row.temperature, Temperature::from_bits(0.25f32.to_bits()));
    assert_eq!(row.prompt, "Summarize.");
    assert_eq!(row.query_key, key);
    assert_eq!(row.query_key_hash, calculate_hash(&key));
    assert_eq!(row.prompt_tokens, 11);
    assert_eq!(row.completion_tokens, 22);
    assert_eq!(row.total_tokens, 33);
    assert_eq!(row.process_time, 2000);
    assert_eq!(row.response, response("id-1"));
    assert_eq!(row.cost, 77);
    assert_eq!(row.clone(), row);

    let row = Row::of_entry(&"any key".to_string(), &chat("p", "id-2"));
    assert_eq!(row.kind, RowKind::Chat);
    assert_eq!(row.kind.table(), Table::ChatCompletions);
    assert_eq!(row.model, "gpt-3.5-turbo");
    assert_eq!(row.query_key, "any key");
    assert_eq!(row.query_key_hash, calculate_hash(&"any key".to_string()));

    let row = Row::of_entry(&"Meta: p".to_string(), &meta("p", "id-3"));
    assert_eq!(row.kind, RowKind::Meta);
    assert_eq!(row.kind.table(), Table::MetaCompletions);
    assert_eq!(row.model, "gpt-4-32k-0314");
}

#[test]
fn a_row_is_stamped_with_the_time_of_its_making() {
    let before = chrono::Utc::now().naive_local();
    let row = Row::of_entry(&"Chat: p".to_string(), &chat("p", "id"));
    let after = chrono::Utc::now().naive_local();
    assert!(before <= row.timestamp && row.timestamp <= after);
}

#[test]
fn a_query_comes_back_from_its_row_marked_as_read_back() {
    for query in [chat("p", "1"), text("t", "p", "2"), meta("p", "3")] {
        let row = Row::of_entry(&query.key(), &query);
        assert!(row.has_known_model());
        assert_eq!(row.to_query(), read_back(&query));
    }
}

#[test]
fn processing_time_is_cut_to_32_bits() {
    let mut long = ChatQuery {
        prompt: "p".to_string(),
        cost: 0,
        response: response("id"),
        process_time: i32::MAX as u64,
        model: GptModel::Gpt4,
        temperature: Temperature::from_bits(0),
        from_cache: false,
    };
    let row = Row::of_entry(&"k".to_string(), &Query::ChatQuery(long.clone()));
    assert_eq!(row.process_time, i32::MAX);
    assert_eq!(row.to_query().expect_as_chat().process_time, i32::MAX as u64);

    long.process_time = i32::MAX as u64 + 1;
    let row = Row::of_entry(&"k".to_string(), &Query::ChatQuery(long.clone()));
    assert_eq!(row.process_time, i32::MIN);
    assert_eq!(row.to_query().expect_as_chat().process_time, i32::MIN as u64);

    long.process_time = (1u64 << 32) + 5;
    let row = Row::of_entry(&"k".to_string(), &Query::ChatQuery(long));
    assert_eq!(row.process_time, 5);
    assert_eq!(row.to_query().expect_as_chat().process_time, 5);
}

#[test]
fn rows_with_unknown_models_are_told_apart() {
    let mut row = Row::of_entry(&"Chat: p".to_string(), &chat("p", "1"));
    assert!(row.has_known_model());
    row.model = "gpt-5".to_string();
    assert!(!row.has_known_model());
    let good = stored(1, &chat("a", "1"));
    let bad = StoredRow { rid: 2, row };
    assert!(db().models_known(&vec![]));
    assert!(db().models_known(&vec![stored(1, &chat("a", "1")), stored(3, &meta("a", "1"))]));
    assert!(!db().models_known(&vec![good, bad]));
}

#[test]
fn insert_cache_sorts_the_entries_into_three_batches() {
    let cache = cache_of(&[
        text("b", "p", "1"),
        chat("x", "2"),
        meta("m", "3"),
        chat("a", "4"),
        text("a", "p", "5"),
        chat("z", "6"),
    ]);
    let plan = db().insert_cache(&cache);
    assert_eq!(keys(&plan.chat_completions), vec!["Chat: x", "Chat: a", "Chat: z"]);
    assert_eq!(keys(&plan.text_completions), vec!["b: p", "a: p"]);
    assert_eq!(keys(&plan.meta_completions), vec!["Meta: m"]);
    for row in plan.chat_completions.iter().chain(&plan.text_completions).chain(&plan.meta_completions) {
        let query = cache.lookup(&row.query_key).unwrap();
        let mut expected = Row::of_entry(&row.query_key, query);
        expected.timestamp = row.timestamp;
        assert_eq!(row, &expected);
        assert_eq!(row.query_key_hash, calculate_hash(&row.query_key));
    }
}

#[test]
fn insert_cache_of_an_empty_cache_plans_nothing() {
    let plan = db().insert_cache(&Cache::default());
    assert_eq!(
        plan,
        InsertPlan { chat_completions: vec![], text_completions: vec![], meta_completions: vec![] }
    );
}

#[test]
fn insert_cache_goes_by_the_kind_of_the_query_not_by_the_key() {
    let mut entries = Entries::new();
    entries.insert("Chat: odd".to_string(), meta("p", "1"));
    let cache = Cache { entries, filepath: "c.json".to_string() };
    let plan = db().insert_cache(&cache);
    assert!(plan.chat_completions.is_empty());
    assert_eq!(keys(&plan.meta_completions), vec!["Chat: odd"]);
}

#[test]
fn a_stored_row_is_buried_before_it_is_deleted() {
    assert_eq!(db().displace(None), vec![]);
    let found = stored(42, &text("t", "p", "1"));
    let timestamp = found.row.timestamp;
    let actions = db().displace(Some(found));
    let mut buried = stored(42, &text("t", "p", "1"));
    buried.row.timestamp = timestamp;
    assert_eq!(
        actions,
        vec![StoreAction::Bury(buried), StoreAction::Delete(Table::TextCompletions, 42)]
    );
    let actions = db().displace(Some(stored(7, &chat("p", "1"))));
    assert_eq!(actions[1], StoreAction::Delete(Table::ChatCompletions, 7));
    let actions = db().displace(Some(stored(-1, &meta("p", "1"))));
    assert_eq!(actions[1], StoreAction::Delete(Table::MetaCompletions, -1));
}

#[test]
fn insert_query_makes_the_row_of_one_entry() {
    let cache = cache_of(&[chat("a", "1"), text("t", "p", "2")]);
    let before = cache.clone();
    let row = db().insert_query("t: p".to_string(), &cache).unwrap();
    let mut expected = Row::of_entry(&"t: p".to_string(), &text("t", "p", "2"));
    expected.timestamp = row.timestamp;
    assert_eq!(row, expected);
    assert_eq!(db().insert_query("t: q".to_string(), &cache), None);
    assert_eq!(cache, before);
}

#[test]
fn read_all_to_cache_without_overwrite_keeps_what_the_cache_has() {
    let mine = chat("a", "mine");
    let mut cache = cache_of(&[mine.clone()]);
    let before = cache.entries.clone();
    let mut handle = db();
    let (previous, effects) = handle.read_all_to_cache(
        &mut cache,
        vec![stored(1, &text("t", "p", "1"))],
        vec![stored(1, &chat("a", "theirs")), stored(2, &chat("b", "2"))],
        vec![stored(1, &meta("m", "3"))],
        false,
    );
    assert_eq!(previous, before);
    assert_eq!(effects, vec![Effect::RewriteCache]);
    assert_eq!(handle, db());
    assert_eq!(
        cache.entries.pairs(),
        &vec![
            ("Chat: a".to_string(), mine),
            ("t: p".to_string(), read_back(&text("t", "p", "1"))),
            ("Chat: b".to_string(), read_back(&chat("b", "2"))),
            ("Meta: m".to_string(), read_back(&meta("m", "3"))),
        ]
    );
    assert_eq!(cache.filepath, "./cache.json");
}

#[test]
fn read_all_to_cache_with_overwrite_buries_what_the_cache_had() {
    let mine = chat("a", "mine");
    let mut cache = cache_of(&[mine.clone(), chat("c", "kept")]);
    let (previous, effects) = db().read_all_to_cache(
        &mut cache,
        vec![],
        vec![stored(1, &chat("a", "theirs")), stored(2, &chat("b", "2"))],
        vec![],
        true,
    );
    assert_eq!(previous.len(), 2);
    assert_eq!(effects, vec![Effect::Bury(mine), Effect::RewriteCache]);
    assert_eq!(
        cache.entries.pairs(),
        &vec![
            ("Chat: a".to_string(), read_back(&chat("a", "theirs"))),
            ("Chat: c".to_string(), chat("c", "kept")),
            ("Chat: b".to_string(), read_back(&chat("b", "2"))),
        ]
    );
}

#[test]
fn read_all_to_cache_goes_by_the_key_of_the_query() {
    // the key column of a row is not read when the rows are merged
    let mut odd = stored(1, &chat("a", "1"));
    odd.row.query_key = "something else".to_string();
    let mut cache = Cache::default();
    db().read_all_to_cache(&mut cache, vec![], vec![odd], vec![], false);
    assert_eq!(cache.entries.pairs(), &vec![("Chat: a".to_string(), read_back(&chat("a", "1")))]);
}

#[test]
fn read_all_keeps_each_row_under_its_key() {
    let mut odd = stored(3, &meta("m", "4"));
    odd.row.query_key = "Chat: a".to_string();
    let entries = db().read_all(
        vec![stored(1, &chat("a", "1")), stored(2, &chat("b", "2"))],
        vec![stored(1, &text("t", "p", "3"))],
        vec![odd],
    );
    assert_eq!(
        entries.pairs(),
        &vec![
            ("Chat: a".to_string(), read_back(&meta("m", "4"))),
            ("Chat: b".to_string(), read_back(&chat("b", "2"))),
            ("t: p".to_string(), read_back(&text("t", "p", "3"))),
        ]
    );
    assert_eq!(db().read_all(vec![], vec![], vec![]), Entries::new());
}

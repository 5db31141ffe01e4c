use openai_rs::models::cache::Cache;
use openai_rs::models::effects::Effect;
use openai_rs::models::entries::Entries;
use openai_rs::models::gpt_models::GptModel;
use openai_rs::models::req_and_res::{ChatCompletionMessage, MessageRole, Usage};
use openai_rs::models::response::{ChatCompletionChoice, ChatCompletionResponse, FinishReason};
use openai_rs::models::temperature::Temperature;
use openai_rs::{Cacheable, ChatQuery, MetaQuery, Query, TextQuery};

fn response(id: &str) -> ChatCompletionResponse {
    ChatCompletionResponse {
        id: id.to_string(),
        object: "chat.completion".to_string(),
        created: 1_700_000_000,
        model: "gpt-3.5-turbo".to_string(),
        choices: vec![ChatCompletionChoice {
            index: 0,
            message: ChatCompletionMessage {
                role: MessageRole::assistant,
                content: Some(format!("answer of {id}")),
                name: None,
                function_call: None,
            },
            finish_reason: FinishReason::stop,
        }],
        usage: Usage { prompt_tokens: 10, completion_tokens: 20, total_tokens: 30 },
    }
}

fn chat(prompt: &str, id: &str) -> Query {
    Query::ChatQuery(ChatQuery {
        prompt: prompt.to_string(),
        cost: 5_500,
        response: response(id),
        process_time: 2,
        model: GptModel::Gpt35Turbo,
        temperature: Temperature::from_bits(0.5f32.to_bits()),
        from_cache: false,
    })
}

fn text(title: &str, prompt: &str, id: &str) -> Query {
    Query::TextQuery(TextQuery {
        prompt: prompt.to_string(),
        cost: 5_500,
        response: response(id),
        process_time: 2000,
        model: GptModel::Gpt4,
        document_title: title.to_string(),
        temperature: Temperature::from_bits(0.0f32.to_bits()),
        from_cache: false,
    })
}

fn meta(prompt: &str, id: &str) -> Query {
    Query::MetaQuery(MetaQuery {
        prompt: prompt.to_string(),
        cost: 5_500,
        response: response(id),
        process_time: 2000,
        model: GptModel::Gpt432k,
        temperature: Temperature::from_bits(1.0f32.to_bits()),
        from_cache: false,
    })
}

fn keys(entries: &Entries) -> Vec<String> {
    entries.pairs().iter().map(|pair| pair.0.clone()).collect()
}

fn rewrites(effects: &Vec<Effect>) -> usize {
    effects.iter().filter(|effect| matches!(effect, Effect::RewriteCache)).count()
}

#[test]
fn new_entries_are_empty() {
    let entries = Entries::new();
    assert_eq!(entries.len(), 0);
    assert!(entries.is_empty());
    assert_eq!(entries.get(&"Chat: a".to_string()), None);
    assert!(!entries.contains_key(&"Chat: a".to_string()));
    assert_eq!(entries.pairs(), &vec![]);
}

#[test]
fn entries_keep_the_order_of_arrival() {
    let mut entries = Entries::new();
    assert_eq!(entries.insert("b".to_string(), chat("b", "1")), None);
    assert_eq!(entries.insert("a".to_string(), chat("a", "2")), None);
    assert_eq!(entries.insert("c".to_string(), chat("c", "3")), None);
    assert_eq!(keys(&entries), vec!["b", "a", "c"]);
    assert_eq!(entries.len(), 3);
    // a known key keeps its place and hands back what it led to
    assert_eq!(entries.insert("a".to_string(), chat("a", "4")), Some(chat("a", "2")));
    assert_eq!(keys(&entries), vec!["b", "a", "c"]);
    assert_eq!(entries.len(), 3);
    assert_eq!(entries.get(&"a".to_string()), Some(&chat("a", "4")));
    assert_eq!(entries.get(&"b".to_string()), Some(&chat("b", "1")));
    assert_eq!(entries.get(&"c".to_string()), Some(&chat("c", "3")));
    // replacing the first and the last
    assert_eq!(entries.insert("b".to_string(), chat("b", "5")), Some(chat("b", "1")));
    assert_eq!(entries.insert("c".to_string(), chat("c", "6")), Some(chat("c", "3")));
    assert_eq!(keys(&entries), vec!["b", "a", "c"]);
    assert_eq!(entries.get(&"b".to_string()), Some(&chat("b", "5")));
    assert_eq!(entries.get(&"c".to_string()), Some(&chat("c", "6")));
}

#[test]
fn entries_remove_keeps_the_order_of_the_rest() {
    let mut entries = Entries::new();
    for key in ["a", "b", "c", "d"] {
        entries.insert(key.to_string(), chat(key, key));
    }
    assert_eq!(entries.remove_entry(&"b".to_string()), Some(("b".to_string(), chat("b", "b"))));
    assert_eq!(keys(&entries), vec!["a", "c", "d"]);
    assert_eq!(entries.remove_entry(&"b".to_string()), None);
    assert_eq!(keys(&entries), vec!["a", "c", "d"]);
    assert_eq!(entries.remove_entry(&"d".to_string()), Some(("d".to_string(), chat("d", "d"))));
    assert_eq!(entries.remove_entry(&"a".to_string()), Some(("a".to_string(), chat("a", "a"))));
    assert_eq!(keys(&entries), vec!["c"]);
    assert!(entries.contains_key(&"c".to_string()));
    assert!(!entries.contains_key(&"a".to_string()));
    entries.clear();
    assert!(entries.is_empty());
    assert_eq!(entries, Entries::new());
}

#[test]
fn entries_from_pairs_let_the_later_pair_win() {
    let entries = Entries::from_pairs(vec![
        ("a".to_string(), chat("a", "1")),
        ("b".to_string(), chat("b", "2")),
        ("a".to_string(), chat("a", "3")),
    ]);
    assert_eq!(keys(&entries), vec!["a", "b"]);
    assert_eq!(entries.get(&"a".to_string()), Some(&chat("a", "3")));
    assert_eq!(entries.get(&"b".to_string()), Some(&chat("b", "2")));
    assert_eq!(Entries::from_pairs(vec![]), Entries::new());
    assert_eq!(entries.clone(), entries);
}

#[test]
fn cache_defaults() {
    let cache = Cache::default();
    assert_eq!(cache.filepath, "./cache.json");
    assert!(cache.entries.is_empty());
    let cache = Cache::new("elsewhere.json".to_string());
    assert_eq!(cache.filepath, "elsewhere.json");
    assert!(cache.entries.is_empty());
}

#[test]
fn cache_insert_of_a_new_key_rewrites_the_mirror() {
    let mut cache = Cache::default();
    let query = chat("a", "1");
    let effects = cache.insert(&query);
    assert_eq!(effects, vec![Effect::RewriteCache]);
    assert_eq!(cache.entries.len(), 1);
    assert_eq!(cache.lookup(&query.key()), Some(&query));
    assert_eq!(cache.lookup(&"Chat: a".to_string()), Some(&query));
    assert_eq!(cache.lookup(&"a".to_string()), None);
    assert_eq!(cache.filepath, "./cache.json");
}

#[test]
fn cache_insert_over_a_key_buries_the_old_query() {
    let mut cache = Cache::default();
    let old = chat("a", "old");
    let new = chat("a", "new");
    cache.insert(&old);
    cache.insert(&chat("b", "other"));
    let effects = cache.insert(&new);
    assert_eq!(effects, vec![Effect::Bury(old), Effect::RewriteCache]);
    assert_eq!(cache.entries.len(), 2);
    assert_eq!(cache.lookup(&"Chat: a".to_string()), Some(&new));
    assert_eq!(cache.lookup(&"Chat: b".to_string()), Some(&chat("b", "other")));
}

#[test]
fn cache_insert_keeps_kinds_apart() {
    let mut cache = Cache::default();
    cache.insert(&chat("p", "1"));
    cache.insert(&meta("p", "2"));
    cache.insert(&text("doc", "p", "3"));
    assert_eq!(cache.entries.len(), 3);
    assert_eq!(keys(&cache.entries), vec!["Chat: p", "Meta: p", "doc: p"]);
    // a document titled like the chat prefix lands on the chat query
    let effects = cache.insert(&text("Chat", "p", "4"));
    assert_eq!(effects, vec![Effect::Bury(chat("p", "1")), Effect::RewriteCache]);
    assert_eq!(cache.entries.len(), 3);
    assert_eq!(cache.lookup(&"Chat: p".to_string()), Some(&text("Chat", "p", "4")));
}

#[test]
fn cache_insert_many_without_overwrite_keeps_what_is_there() {
    let mut cache = Cache::default();
    let existing = chat("q1", "existing");
    cache.insert(&existing);
    let q1 = chat("q1", "newer");
    let q2 = chat("q2", "new");
    let effects = cache.insert_many(vec![&q1, &q2], false);
    assert_eq!(effects, vec![Effect::RewriteCache]);
    assert_eq!(rewrites(&effects), 1);
    assert_eq!(cache.entries.len(), 2);
    assert_eq!(cache.lookup(&q1.key()), Some(&existing));
    assert_eq!(cache.lookup(&q2.key()), Some(&q2));
}

#[test]
fn cache_insert_many_with_overwrite_buries_each_old_query() {
    let mut cache = Cache::default();
    let existing = chat("q1", "existing");
    cache.insert(&existing);
    let q1 = chat("q1", "newer");
    let q2 = chat("q2", "new");
    let q2_again = chat("q2", "newest");
    let effects = cache.insert_many(vec![&q1, &q2, &q2_again], true);
    assert_eq!(
        effects,
        vec![Effect::Bury(existing), Effect::Bury(q2.clone()), Effect::RewriteCache]
    );
    assert_eq!(rewrites(&effects), 1);
    assert_eq!(cache.entries.len(), 2);
    assert_eq!(cache.lookup(&q1.key()), Some(&q1));
    assert_eq!(cache.lookup(&q2.key()), Some(&q2_again));
}

#[test]
fn cache_insert_many_without_overwrite_takes_the_first_of_equal_keys() {
    let mut cache = Cache::default();
    let first = chat("q", "first");
    let second = chat("q", "second");
    let effects = cache.insert_many(vec![&first, &second], false);
    assert_eq!(effects, vec![Effect::RewriteCache]);
    assert_eq!(cache.lookup(&first.key()), Some(&first));
    assert_eq!(cache.entries.len(), 1);
}

#[test]
fn cache_insert_many_of_nothing_still_rewrites_once() {
    let mut cache = Cache::default();
    cache.insert(&chat("a", "1"));
    for overwrite in [false, true] {
        let effects = cache.insert_many(vec![], overwrite);
        assert_eq!(effects, vec![Effect::RewriteCache]);
        assert_eq!(cache.entries.len(), 1);
    }
}

#[test]
fn cache_remove_hands_back_the_entry() {
    let mut cache = Cache::default();
    let query = chat("a", "1");
    cache.insert(&query);
    cache.insert(&chat("b", "2"));
    let (removed, effects) = cache.remove("Chat: a".to_string());
    assert_eq!(removed, Some(("Chat: a".to_string(), query)));
    assert_eq!(effects, vec![Effect::RewriteCache]);
    assert_eq!(cache.entries.len(), 1);
    assert_eq!(cache.lookup(&"Chat: a".to_string()), None);
}

#[test]
fn cache_remove_of_an_absent_key_writes_nothing() {
    let mut cache = Cache::default();
    cache.insert(&chat("a", "1"));
    let before = cache.clone();
    let (removed, effects) = cache.remove("Chat: b".to_string());
    assert_eq!(removed, None);
    assert_eq!(effects, vec![]);
    assert_eq!(cache, before);
}

#[test]
fn cache_clear_empties_and_rewrites() {
    let mut cache = Cache::new("c.json".to_string());
    cache.insert(&chat("a", "1"));
    cache.insert(&chat("b", "2"));
    let effects = cache.clear();
    assert_eq!(effects, vec![Effect::RewriteCache]);
    assert_eq!(cache.entries.len(), 0);
    assert_eq!(cache.entries, Entries::new());
    assert_eq!(cache.filepath, "c.json");
    // clearing what is empty rewrites too
    assert_eq!(cache.clear(), vec![Effect::RewriteCache]);
}

/// Carries out effects on a stand-in for the files, as a caller would.
fn carry_out(
    effects: Vec<Effect>,
    cache: &Cache,
    mirror: &mut Vec<(String, Query)>,
    graveyard: &mut Vec<Query>,
) {
    for effect in effects {
        match effect {
            Effect::Bury(query) => graveyard.push(query),
            Effect::RewriteCache => *mirror = cache.entries.pairs().clone(),
            Effect::RewriteBill => unreachable!(),
            Effect::ClearGraveyard => graveyard.clear(),
        }
    }
}

#[test]
fn mirror_follows_the_cache_through_a_sequence_of_operations() {
    let mut cache = Cache::default();
    let mut mirror: Vec<(String, Query)> = vec![];
    let mut graveyard: Vec<Query> = vec![];

    let effects = cache.insert(&chat("a", "1"));
    carry_out(effects, &cache, &mut mirror, &mut graveyard);
    assert_eq!(&mirror, cache.entries.pairs());

    let effects = cache.insert(&chat("a", "2"));
    carry_out(effects, &cache, &mut mirror, &mut graveyard);
    assert_eq!(&mirror, cache.entries.pairs());
    assert_eq!(graveyard, vec![chat("a", "1")]);

    let (q1, q2, q3) = (chat("a", "3"), text("d", "p", "4"), meta("m", "5"));
    let effects = cache.insert_many(vec![&q1, &q2, &q3], true);
    carry_out(effects, &cache, &mut mirror, &mut graveyard);
    assert_eq!(&mirror, cache.entries.pairs());
    assert_eq!(graveyard, vec![chat("a", "1"), chat("a", "2")]);

    let (_, effects) = cache.remove("nothing".to_string());
    carry_out(effects, &cache, &mut mirror, &mut graveyard);
    assert_eq!(&mirror, cache.entries.pairs());

    let (_, effects) = cache.remove("d: p".to_string());
    carry_out(effects, &cache, &mut mirror, &mut graveyard);
    assert_eq!(&mirror, cache.entries.pairs());
    assert_eq!(mirror.len(), 2);

    let effects = cache.insert_many(vec![&chat("a", "6"), &chat("z", "7")], false);
    carry_out(effects, &cache, &mut mirror, &mut graveyard);
    assert_eq!(&mirror, cache.entries.pairs());
    assert_eq!(mirror.len(), 3);

    let effects = cache.clear();
    carry_out(effects, &cache, &mut mirror, &mut graveyard);
    assert_eq!(&mirror, cache.entries.pairs());
    assert!(mirror.is_empty());
    assert_eq!(graveyard, vec![chat("a", "1"), chat("a", "2")]);
}

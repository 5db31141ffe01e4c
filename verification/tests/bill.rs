use openai_rs::constants::cost_factors::compute_cost;
use openai_rs::models::bill::Bill;
use openai_rs::models::effects::Effect;
use openai_rs::models::gpt_models::GptModel;
use openai_rs::models::req_and_res::Usage;
use openai_rs::models::response::ChatCompletionResponse;
use openai_rs::models::temperature::Temperature;
use openai_rs::{ChatQuery, Query, TextQuery};

fn response(prompt_tokens: i32, completion_tokens: i32, total_tokens: i32) -> ChatCompletionResponse {
    ChatCompletionResponse {
        id: "id".to_string(),
        object: "chat.completion".to_string(),
        created: 1_700_000_000,
        model: "gpt-3.5-turbo".to_string(),
        choices: vec![],
        usage: Usage { prompt_tokens, completion_tokens, total_tokens },
    }
}

fn chat(model: GptModel, prompt_tokens: i32, completion_tokens: i32) -> Query {
    Query::ChatQuery(ChatQuery {
        prompt: "p".to_string(),
        // the bill prices the usage itself and does not read this field
        cost: 1,
        response: response(prompt_tokens, completion_tokens, prompt_tokens + completion_tokens),
        process_time: 2,
        model,
        temperature: Temperature::from_bits(0.5f32.to_bits()),
        from_cache: false,
    })
}

#[test]
fn default_bill_is_blank() {
    let bill = Bill::default();
    assert_eq!(bill.cost, 0);
    assert_eq!(bill.prompt_tokens, 0);
    assert_eq!(bill.completion_tokens, 0);
    assert_eq!(bill.total_tokens, 0);
    assert_eq!(bill.query_count, 0);
    assert_eq!(bill.cache_retrievals, 0);
    assert_eq!(bill.filepath, "./bill.json");
    assert_eq!(Bill::new("b.json".to_string()).filepath, "b.json");
    assert_eq!(bill.clone(), bill);
}

#[test]
fn update_with_a_query_charges_the_bill() {
    let mut bill = Bill::default();
    let effects = bill.update(Some(chat(GptModel::Gpt4, 100, 50)));
    assert_eq!(effects, vec![Effect::RewriteBill]);
    assert_eq!(bill.prompt_tokens, 100);
    assert_eq!(bill.completion_tokens, 50);
    assert_eq!(bill.total_tokens, 150);
    assert_eq!(bill.query_count, 1);
    assert_eq!(bill.cost, 100 * 3_000 + 50 * 6_000);
    assert_eq!(bill.cache_retrievals, 0);
    assert_eq!(bill.filepath, "./bill.json");
}

#[test]
fn update_without_a_query_only_asks_for_the_rewrite() {
    let mut bill = Bill::default();
    bill.update(Some(chat(GptModel::Gpt4, 100, 50)));
    bill.cache_retrievals = 3;
    let before = bill.clone();
    let effects = bill.update(None);
    assert_eq!(effects, vec![Effect::RewriteBill]);
    assert_eq!(bill, before);
}

#[test]
fn update_takes_the_total_that_the_response_reports() {
    let mut bill = Bill::default();
    let odd = Query::TextQuery(TextQuery {
        prompt: "p".to_string(),
        cost: 0,
        response: response(3, 4, 100),
        process_time: 0,
        model: GptModel::Gpt35Turbo,
        document_title: "t".to_string(),
        temperature: Temperature::from_bits(0),
        from_cache: false,
    });
    bill.update(Some(odd));
    assert_eq!(bill.prompt_tokens, 3);
    assert_eq!(bill.completion_tokens, 4);
    assert_eq!(bill.total_tokens, 100);
    assert_eq!(bill.cost, 3 * 150 + 4 * 200);
}

#[test]
fn billing_is_additive() {
    let completions = [
        (GptModel::Gpt35Turbo, 12, 34),
        (GptModel::Gpt4, 1000, 1),
        (GptModel::Gpt432k, 0, 77),
        (GptModel::Gpt35Turbo16k, 16000, 384),
        (GptModel::Gpt35Turbo, 12, 34),
    ];
    let mut bill = Bill::default();
    let mut prompt_tokens = 0;
    let mut completion_tokens = 0;
    let mut cost = 0;
    for (model, prompt, completion) in completions {
        bill.update(Some(chat(model, prompt, completion)));
        prompt_tokens += prompt;
        completion_tokens += completion;
        let usage = Usage {
            prompt_tokens: prompt,
            completion_tokens: completion,
            total_tokens: prompt + completion,
        };
        cost += compute_cost(&usage, &model);
    }
    assert_eq!(bill.prompt_tokens, prompt_tokens);
    assert_eq!(bill.completion_tokens, completion_tokens);
    assert_eq!(bill.total_tokens, prompt_tokens + completion_tokens);
    assert_eq!(bill.total_tokens, bill.prompt_tokens + bill.completion_tokens);
    assert_eq!(bill.cost, cost);
    assert_eq!(bill.cost, 2 * 8_600 + 3_006_000 + 924_000 + 4_953_600);
    assert_eq!(bill.query_count, 5);
    assert_eq!(bill.cache_retrievals, 0);
}

#[test]
fn reset_zeroes_five_counters_and_keeps_the_retrievals() {
    let mut bill = Bill::new("b.json".to_string());
    bill.update(Some(chat(GptModel::Gpt4, 100, 50)));
    bill.cache_retrievals = 7;
    let effects = bill.reset_bill();
    assert_eq!(effects, vec![Effect::RewriteBill]);
    assert_eq!(bill.cost, 0);
    assert_eq!(bill.prompt_tokens, 0);
    assert_eq!(bill.completion_tokens, 0);
    assert_eq!(bill.total_tokens, 0);
    assert_eq!(bill.query_count, 0);
    assert_eq!(bill.cache_retrievals, 7);
    assert_eq!(bill.filepath, "b.json");
    // and billing starts over
    bill.update(Some(chat(GptModel::Gpt35Turbo, 1, 1)));
    assert_eq!(bill.cost, 350);
    assert_eq!(bill.query_count, 1);
    assert_eq!(bill.cache_retrievals, 7);
}

#[test]
fn room_on_the_bill() {
    let mut bill = Bill::default();
    let usage = Usage { prompt_tokens: 10, completion_tokens: 20, total_tokens: 30 };
    assert!(bill.has_room_for(&usage, &GptModel::Gpt4));
    assert!(bill.has_room_for_retrieval());
    bill.prompt_tokens = i32::MAX - 10;
    assert!(bill.has_room_for(&usage, &GptModel::Gpt4));
    bill.prompt_tokens = i32::MAX - 9;
    assert!(!bill.has_room_for(&usage, &GptModel::Gpt4));
    bill.prompt_tokens = 0;
    bill.total_tokens = i32::MAX - 29;
    assert!(!bill.has_room_for(&usage, &GptModel::Gpt4));
    bill.total_tokens = 0;
    bill.completion_tokens = i32::MAX - 19;
    assert!(!bill.has_room_for(&usage, &GptModel::Gpt4));
    bill.completion_tokens = 0;
    bill.query_count = i32::MAX;
    assert!(!bill.has_room_for(&usage, &GptModel::Gpt4));
    bill.query_count = i32::MAX - 1;
    assert!(bill.has_room_for(&usage, &GptModel::Gpt4));
    bill.cost = i64::MAX - 150_000;
    assert!(bill.has_room_for(&usage, &GptModel::Gpt4));
    bill.cost = i64::MAX - 149_999;
    assert!(!bill.has_room_for(&usage, &GptModel::Gpt4));
    bill.cache_retrievals = i32::MAX;
    assert!(!bill.has_room_for_retrieval());
    let negative = Usage { prompt_tokens: -1, completion_tokens: 0, total_tokens: -1 };
    bill.cost = i64::MIN;
    assert!(!bill.has_room_for(&negative, &GptModel::Gpt4));
}

use openai_rs::constants::cost_factors::{compute_cost, token_prices};
use openai_rs::models::gpt_models::GptModel;
use openai_rs::models::req_and_res::Usage;
use openai_rs::models::response::ChatCompletionResponse;

fn usage(prompt_tokens: i32, completion_tokens: i32) -> Usage {
    Usage { prompt_tokens, completion_tokens, total_tokens: prompt_tokens + completion_tokens }
}

/// The price table in dollars per thousand tokens.
fn dollars_per_thousand(model: GptModel) -> (f64, f64) {
    match model {
        GptModel::Gpt35Turbo => (0.0015, 0.002),
        GptModel::Gpt35Turbo16k => (0.003, 0.004),
        GptModel::Gpt35Turbo0613 => (0.0015, 0.002),
        GptModel::Gpt4 => (0.03, 0.06),
        GptModel::Gpt40314 => (0.03, 0.06),
        GptModel::Gpt40613 => (0.03, 0.06),
        GptModel::Gpt432k => (0.06, 0.12),
        GptModel::Gpt432k0314 => (0.06, 0.12),
    }
}

const ALL: [GptModel; 8] = [
    GptModel::Gpt35Turbo,
    GptModel::Gpt35Turbo16k,
    GptModel::Gpt35Turbo0613,
    GptModel::Gpt4,
    GptModel::Gpt40314,
    GptModel::Gpt432k,
    GptModel::Gpt432k0314,
    GptModel::Gpt40613,
];

#[test]
fn cost_in_microcents_for_each_model() {
    let used = usage(1000, 500);
    assert_eq!(compute_cost(&used, &GptModel::Gpt35Turbo), 250_000);
    assert_eq!(compute_cost(&used, &GptModel::Gpt35Turbo0613), 250_000);
    assert_eq!(compute_cost(&used, &GptModel::Gpt35Turbo16k), 500_000);
    assert_eq!(compute_cost(&used, &GptModel::Gpt4), 6_000_000);
    assert_eq!(compute_cost(&used, &GptModel::Gpt40314), 6_000_000);
    assert_eq!(compute_cost(&used, &GptModel::Gpt40613), 6_000_000);
    assert_eq!(compute_cost(&used, &GptModel::Gpt432k), 12_000_000);
    assert_eq!(compute_cost(&used, &GptModel::Gpt432k0314), 12_000_000);
}

#[test]
fn cost_prices_prompt_and_completion_apart() {
    assert_eq!(compute_cost(&usage(1, 0), &GptModel::Gpt35Turbo), 150);
    assert_eq!(compute_cost(&usage(0, 1), &GptModel::Gpt35Turbo), 200);
    assert_eq!(compute_cost(&usage(7, 13), &GptModel::Gpt4), 7 * 3_000 + 13 * 6_000);
    assert_eq!(compute_cost(&usage(0, 0), &GptModel::Gpt432k), 0);
}

#[test]
fn cost_at_the_ends_of_the_token_range() {
    let most = Usage { prompt_tokens: i32::MAX, completion_tokens: i32::MAX, total_tokens: -2 };
    assert_eq!(compute_cost(&most, &GptModel::Gpt432k), i32::MAX as i64 * 18_000);
    let least = Usage { prompt_tokens: i32::MIN, completion_tokens: i32::MIN, total_tokens: 0 };
    assert_eq!(compute_cost(&least, &GptModel::Gpt432k), i32::MIN as i64 * 18_000);
    assert_eq!(compute_cost(&usage(-3, 2), &GptModel::Gpt35Turbo), -450 + 400);
}

#[test]
fn cost_agrees_with_the_price_table() {
    for model in ALL {
        let (prompt_rate, completion_rate) = dollars_per_thousand(model);
        let (prompt_price, completion_price) = token_prices(&model);
        // one token, in microcents: dollars per thousand, times a hundred
        // cents, times a million, over a thousand tokens
        assert_eq!(prompt_price, (prompt_rate * 100_000.0).round() as i64);
        assert_eq!(completion_price, (completion_rate * 100_000.0).round() as i64);
        for used in [usage(0, 0), usage(12, 34), usage(4096, 1), usage(999, 16000)] {
            let cents = (used.prompt_tokens as f64 * prompt_rate / 1000.0
                + used.completion_tokens as f64 * completion_rate / 1000.0)
                * 100.0;
            let microcents = compute_cost(&used, &model);
            assert_eq!(microcents, (cents * 1_000_000.0).round() as i64);
        }
    }
}

#[test]
fn response_cost_is_the_cost_of_its_usage() {
    let response = ChatCompletionResponse {
        id: "chatcmpl-1".to_string(),
        object: "chat.completion".to_string(),
        created: 1,
        model: "gpt-4".to_string(),
        choices: vec![],
        usage: usage(100, 50),
    };
    assert_eq!(response.cost(&GptModel::Gpt4), 600_000);
    assert_eq!(response.cost(&GptModel::Gpt35Turbo), 25_000);
    assert_eq!(response.cost(&GptModel::Gpt4), compute_cost(&response.usage, &GptModel::Gpt4));
}

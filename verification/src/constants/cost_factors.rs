//! The price schedule: what a thousand prompt tokens and a thousand
//! completion tokens cost under each model.
//!
//! Every amount of money in this crate is a whole number of microcents
//! (millionths of a cent). The schedule's prices are exact in that unit, so a
//! cost is computed without rounding.

use vstd::prelude::*;
use crate::models::gpt_models::GptModel;
use crate::models::req_and_res::Usage;

verus! {

/// The price of a thousand prompt tokens, in microcents.
pub open spec fn prompt_rate(model: GptModel) -> int {
    match model {
        GptModel::Gpt35Turbo => 150_000,
        GptModel::Gpt35Turbo16k => 300_000,
        GptModel::Gpt35Turbo0613 => 150_000,
        GptModel::Gpt4 => 3_000_000,
        GptModel::Gpt40314 => 3_000_000,
        GptModel::Gpt40613 => 3_000_000,
        GptModel::Gpt432k => 6_000_000,
        GptModel::Gpt432k0314 => 6_000_000,
    }
}

/// The price of a thousand completion tokens, in microcents.
pub open spec fn completion_rate(model: GptModel) -> int {
    match model {
        GptModel::Gpt35Turbo => 200_000,
        GptModel::Gpt35Turbo16k => 400_000,
        GptModel::Gpt35Turbo0613 => 200_000,
        GptModel::Gpt4 => 6_000_000,
        GptModel::Gpt40314 => 6_000_000,
        GptModel::Gpt40613 => 6_000_000,
        GptModel::Gpt432k => 12_000_000,
        GptModel::Gpt432k0314 => 12_000_000,
    }
}

/// The cost of a usage under a model, in microcents: prompt and completion
/// tokens are priced apart, each at its rate per thousand.
pub open spec fn cost_of(usage: Usage, model: GptModel) -> int {
    (usage.prompt_tokens * prompt_rate(model) + usage.completion_tokens * completion_rate(model))
        / 1000
}

/// The price of one prompt token and of one completion token, in microcents.
pub fn token_prices(model: &GptModel) -> (prices: (i64, i64))
    ensures
        prices.0 * 1000 == prompt_rate(*model),
        prices.1 * 1000 == completion_rate(*model),
{
    match model {
        GptModel::Gpt35Turbo => (150, 200),
        GptModel::Gpt35Turbo16k => (300, 400),
        GptModel::Gpt35Turbo0613 => (150, 200),
        GptModel::Gpt4 => (3_000, 6_000),
        GptModel::Gpt40314 => (3_000, 6_000),
        GptModel::Gpt40613 => (3_000, 6_000),
        GptModel::Gpt432k => (6_000, 12_000),
        GptModel::Gpt432k0314 => (6_000, 12_000),
    }
}

/// The cost of a usage under a model, in microcents.
pub fn compute_cost(usage: &Usage, model: &GptModel) -> (cost: i64)
    ensures
        cost == cost_of(*usage, *model),
{
    let (prompt_price, completion_price) = token_prices(model);
    let prompt_tokens: i64 = usage.prompt_tokens as i64;
    let completion_tokens: i64 = usage.completion_tokens as i64;
    assert(-0x8000_0000 * 6_000 <= prompt_tokens * prompt_price <= 0x8000_0000 * 6_000)
        by (nonlinear_arith)
        requires
            -0x8000_0000 <= prompt_tokens < 0x8000_0000,
            0 <= prompt_price <= 6_000,
    ;
    assert(-0x8000_0000 * 12_000 <= completion_tokens * completion_price <= 0x8000_0000
        * 12_000) by (nonlinear_arith)
        requires
            -0x8000_0000 <= completion_tokens < 0x8000_0000,
            0 <= completion_price <= 12_000,
    ;
    let cost = prompt_tokens * prompt_price + completion_tokens * completion_price;
    proof {
        lemma_cost_is_exact(*usage, *model);
    }
    cost
}

/// The division in [`cost_of`] leaves no remainder: a cost is the tokens
/// times the price of one token.
pub proof fn lemma_cost_is_exact(usage: Usage, model: GptModel)
    ensures
        cost_of(usage, model) == usage.prompt_tokens * (prompt_rate(model) / 1000)
            + usage.completion_tokens * (completion_rate(model) / 1000),
        cost_of(usage, model) * 1000 == usage.prompt_tokens * prompt_rate(model)
            + usage.completion_tokens * completion_rate(model),
{
    let p = usage.prompt_tokens as int;
    let c = usage.completion_tokens as int;
    let pp = prompt_rate(model) / 1000;
    let cp = completion_rate(model) / 1000;
    assert(prompt_rate(model) == pp * 1000);
    assert(completion_rate(model) == cp * 1000);
    assert(p * (pp * 1000) + c * (cp * 1000) == (p * pp + c * cp) * 1000) by (nonlinear_arith);
    assert(((p * pp + c * cp) * 1000) / 1000 == p * pp + c * cp) by (nonlinear_arith);
}

/// A cost fits in 64 bits with room to spare.
pub proof fn lemma_cost_bounds(usage: Usage, model: GptModel)
    ensures
        -0x8000_0000 * 18_000 <= cost_of(usage, model) <= 0x8000_0000 * 18_000,
{
    lemma_cost_is_exact(usage, model);
    let p = usage.prompt_tokens as int;
    let c = usage.completion_tokens as int;
    let pp = prompt_rate(model) / 1000;
    let cp = completion_rate(model) / 1000;
    assert(-0x8000_0000 * 6_000 <= p * pp <= 0x8000_0000 * 6_000) by (nonlinear_arith)
        requires
            -0x8000_0000 <= p < 0x8000_0000,
            0 <= pp <= 6_000,
    ;
    assert(-0x8000_0000 * 12_000 <= c * cp <= 0x8000_0000 * 12_000) by (nonlinear_arith)
        requires
            -0x8000_0000 <= c < 0x8000_0000,
            0 <= cp <= 12_000,
    ;
}

} // verus!

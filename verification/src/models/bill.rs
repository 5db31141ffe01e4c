//! The running ledger of usage and cost.

use vstd::prelude::*;
use crate::constants::cost_factors::{compute_cost, cost_of, lemma_cost_bounds};
use crate::models::effects::{effect_views, Effect, EffectView};
use crate::models::gpt_models::GptModel;
use crate::models::query::{Query, QueryView};
use crate::models::req_and_res::Usage;

verus! {

/// What has been used and spent since the last reset, and how often the cache
/// answered in place of the service.
#[derive(Debug, PartialEq)]
pub struct Bill {
    /// The cost so far, in microcents.
    pub cost: i64,
    /// The prompt tokens used so far.
    pub prompt_tokens: i32,
    /// The completion tokens used so far.
    pub completion_tokens: i32,
    /// The tokens used so far.
    pub total_tokens: i32,
    /// The number of completions paid for so far.
    pub query_count: i32,
    /// The number of times a completion was found in the cache.
    pub cache_retrievals: i32,
    /// Where the bill is mirrored.
    pub filepath: String,
}

pub struct BillView {
    pub cost: int,
    pub prompt_tokens: int,
    pub completion_tokens: int,
    pub total_tokens: int,
    pub query_count: int,
    pub cache_retrievals: int,
    pub filepath: Seq<char>,
}

impl View for Bill {
    type V = BillView;

    open spec fn view(&self) -> BillView {
        BillView {
            cost: self.cost as int,
            prompt_tokens: self.prompt_tokens as int,
            completion_tokens: self.completion_tokens as int,
            total_tokens: self.total_tokens as int,
            query_count: self.query_count as int,
            cache_retrievals: self.cache_retrievals as int,
            filepath: self.filepath@,
        }
    }
}

/// The view of an optional query.
pub open spec fn opt_query_view(query: Option<Query>) -> Option<QueryView> {
    match query {
        Some(query) => Some(query@),
        None => None,
    }
}

impl BillView {
    /// A bill on which nothing is written yet.
    pub open spec fn blank(filepath: Seq<char>) -> BillView {
        BillView {
            cost: 0,
            prompt_tokens: 0,
            completion_tokens: 0,
            total_tokens: 0,
            query_count: 0,
            cache_retrievals: 0,
            filepath,
        }
    }

    /// The bill once one more completion with the given usage and cost is
    /// on it. The count of cache retrievals stays.
    pub open spec fn charged(self, usage: Usage, cost: int) -> BillView {
        BillView {
            cost: self.cost + cost,
            prompt_tokens: self.prompt_tokens + usage.prompt_tokens,
            completion_tokens: self.completion_tokens + usage.completion_tokens,
            total_tokens: self.total_tokens + usage.total_tokens,
            query_count: self.query_count + 1,
            ..self
        }
    }

    /// The bill after an update: charged with the query's usage, at the
    /// price of the query's model, where there is a query; unchanged where
    /// there is none.
    pub open spec fn updated(self, query: Option<QueryView>) -> BillView {
        match query {
            Some(query) => self.charged(query.usage(), cost_of(query.usage(), query.model())),
            None => self,
        }
    }

    /// The bill after a reset: the five counters of usage are zero, the
    /// count of cache retrievals stays.
    pub open spec fn reset(self) -> BillView {
        BillView {
            cost: 0,
            prompt_tokens: 0,
            completion_tokens: 0,
            total_tokens: 0,
            query_count: 0,
            ..self
        }
    }

    /// The bill once one more cache retrieval is counted. The five counters
    /// of usage stay.
    pub open spec fn retrieved(self) -> BillView {
        BillView { cache_retrievals: self.cache_retrievals + 1, ..self }
    }

    /// Whether every counter fits in its machine integer.
    pub open spec fn fits(self) -> bool {
        &&& i64::MIN <= self.cost <= i64::MAX
        &&& i32::MIN <= self.prompt_tokens <= i32::MAX
        &&& i32::MIN <= self.completion_tokens <= i32::MAX
        &&& i32::MIN <= self.total_tokens <= i32::MAX
        &&& i32::MIN <= self.query_count <= i32::MAX
        &&& i32::MIN <= self.cache_retrievals <= i32::MAX
    }
}

impl Default for Bill {
    /// A blank bill mirrored at `./bill.json`.
    fn default() -> (bill: Bill)
        ensures
            bill@ == BillView::blank("./bill.json"@),
    {
        Bill::new(String::from_str("./bill.json"))
    }
}

impl Clone for Bill {
    fn clone(&self) -> (copy: Self)
        ensures
            copy@ == self@,
    {
        Bill {
            cost: self.cost,
            prompt_tokens: self.prompt_tokens,
            completion_tokens: self.completion_tokens,
            total_tokens: self.total_tokens,
            query_count: self.query_count,
            cache_retrievals: self.cache_retrievals,
            filepath: self.filepath.clone(),
        }
    }
}

fn sum_fits_i32(a: i32, b: i32) -> (fits: bool)
    ensures
        fits == (i32::MIN <= a + b <= i32::MAX),
{
    let sum: i64 = a as i64 + b as i64;
    -0x8000_0000 <= sum && sum <= 0x7fff_ffff
}

impl Bill {
    /// A blank bill mirrored at the given place.
    pub fn new(filepath: String) -> (bill: Bill)
        ensures
            bill@ == BillView::blank(filepath@),
    {
        Bill {
            cache_retrievals: 0,
            completion_tokens: 0,
            prompt_tokens: 0,
            cost: 0,
            query_count: 0,
            total_tokens: 0,
            filepath,
        }
    }

    /// Whether the bill can take one more completion with the given usage
    /// under the given model without a counter leaving its machine integer.
    pub fn has_room_for(&self, usage: &Usage, model: &GptModel) -> (room: bool)
        ensures
            room == self@.charged(*usage, cost_of(*usage, *model)).fits(),
    {
        let cost = compute_cost(usage, model);
        proof {
            lemma_cost_bounds(*usage, *model);
        }
        let total_cost: i128 = self.cost as i128 + cost as i128;
        -0x8000_0000_0000_0000 <= total_cost && total_cost <= 0x7fff_ffff_ffff_ffff && sum_fits_i32(
            self.prompt_tokens,
            usage.prompt_tokens,
        ) && sum_fits_i32(self.completion_tokens, usage.completion_tokens) && sum_fits_i32(
            self.total_tokens,
            usage.total_tokens,
        ) && self.query_count < 0x7fff_ffff
    }

    /// Whether one more cache retrieval can be counted.
    pub fn has_room_for_retrieval(&self) -> (room: bool)
        ensures
            room == self@.retrieved().fits(),
    {
        self.cache_retrievals < 0x7fff_ffff
    }

    /// Adds the usage and cost of a query to the bill, where one is given,
    /// and asks in every case for the bill's mirror to be rewritten.
    ///
    /// The cost is that of the query's usage at the price of the query's
    /// model. The count of cache retrievals is left as it is.
    pub fn update(&mut self, query: Option<Query>) -> (effects: Vec<Effect>)
        requires
            old(self)@.updated(opt_query_view(query)).fits(),
        ensures
            final(self)@ == old(self)@.updated(opt_query_view(query)),
            effect_views(effects@) == seq![EffectView::RewriteBill],
    {
        if let Some(query) = query {
            let usage = query.usage();
            let model = query.model();
            let cost = compute_cost(&usage, &model);
            self.completion_tokens += usage.completion_tokens;
            self.prompt_tokens += usage.prompt_tokens;
            self.total_tokens += usage.total_tokens;
            self.query_count += 1;
            self.cost += cost;
        }
        let effects = vec![Effect::RewriteBill];
        assert(effect_views(effects@) =~= seq![EffectView::RewriteBill]);
        effects
    }

    /// Sets the five counters of usage to zero, leaves the count of cache
    /// retrievals as it is, and asks for the bill's mirror to be rewritten.
    pub fn reset_bill(&mut self) -> (effects: Vec<Effect>)
        ensures
            final(self)@ == old(self)@.reset(),
            effect_views(effects@) == seq![EffectView::RewriteBill],
    {
        self.completion_tokens = 0;
        self.prompt_tokens = 0;
        self.total_tokens = 0;
        self.query_count = 0;
        self.cost = 0;
        let effects = vec![Effect::RewriteBill];
        assert(effect_views(effects@) =~= seq![EffectView::RewriteBill]);
        effects
    }
}

/// The bill once each of the given completions, a usage and the model that
/// prices it, is charged in turn.
pub open spec fn charged_all(bill: BillView, completions: Seq<(Usage, GptModel)>) -> BillView
    decreases completions.len(),
{
    if completions.len() == 0 {
        bill
    } else {
        let last = completions.last();
        charged_all(bill, completions.drop_last()).charged(last.0, cost_of(last.0, last.1))
    }
}

/// The prompt tokens of the given completions, added up.
pub open spec fn sum_prompt_tokens(completions: Seq<(Usage, GptModel)>) -> int
    decreases completions.len(),
{
    if completions.len() == 0 {
        0
    } else {
        sum_prompt_tokens(completions.drop_last()) + completions.last().0.prompt_tokens
    }
}

/// The completion tokens of the given completions, added up.
pub open spec fn sum_completion_tokens(completions: Seq<(Usage, GptModel)>) -> int
    decreases completions.len(),
{
    if completions.len() == 0 {
        0
    } else {
        sum_completion_tokens(completions.drop_last()) + completions.last().0.completion_tokens
    }
}

/// The totals that the given completions report, added up.
pub open spec fn sum_total_tokens(completions: Seq<(Usage, GptModel)>) -> int
    decreases completions.len(),
{
    if completions.len() == 0 {
        0
    } else {
        sum_total_tokens(completions.drop_last()) + completions.last().0.total_tokens
    }
}

/// The costs of the given completions, each by the pricing formula, added up.
pub open spec fn sum_costs(completions: Seq<(Usage, GptModel)>) -> int
    decreases completions.len(),
{
    if completions.len() == 0 {
        0
    } else {
        sum_costs(completions.drop_last()) + cost_of(completions.last().0, completions.last().1)
    }
}

/// Billing is additive: after any number of fresh completions each counter
/// has grown by the sum of what the completions used, the cost by the sum of
/// their costs, the count of queries by their number, and the count of cache
/// retrievals not at all.
pub proof fn lemma_billing_is_additive(bill: BillView, completions: Seq<(Usage, GptModel)>)
    ensures
        charged_all(bill, completions) == (BillView {
            cost: bill.cost + sum_costs(completions),
            prompt_tokens: bill.prompt_tokens + sum_prompt_tokens(completions),
            completion_tokens: bill.completion_tokens + sum_completion_tokens(completions),
            total_tokens: bill.total_tokens + sum_total_tokens(completions),
            query_count: bill.query_count + completions.len(),
            ..bill
        }),
    decreases completions.len(),
{
    if completions.len() > 0 {
        lemma_billing_is_additive(bill, completions.drop_last());
    }
}

/// Where every completion reports a total that is the sum of its two parts,
/// the reported totals add up to the prompt tokens plus the completion tokens.
pub proof fn lemma_totals_add_up(completions: Seq<(Usage, GptModel)>)
    requires
        forall|i: int| 0 <= i < completions.len() ==> (#[trigger] completions[i]).0.adds_up(),
    ensures
        sum_total_tokens(completions) == sum_prompt_tokens(completions) + sum_completion_tokens(
            completions,
        ),
    decreases completions.len(),
{
    if completions.len() > 0 {
        assert(completions.last().0.adds_up());
        lemma_totals_add_up(completions.drop_last());
    }
}

/// On a bill that starts blank or freshly reset, after any number of fresh
/// completions whose totals are the sums of their parts, the total is the sum
/// of all prompt tokens plus the sum of all completion tokens, and the cost
/// is the sum of the costs that the pricing formula gives.
pub proof fn lemma_bill_after_fresh_completions(
    bill: BillView,
    completions: Seq<(Usage, GptModel)>,
)
    requires
        bill.reset() == bill,
        forall|i: int| 0 <= i < completions.len() ==> (#[trigger] completions[i]).0.adds_up(),
    ensures
        charged_all(bill, completions).total_tokens == sum_prompt_tokens(completions)
            + sum_completion_tokens(completions),
        charged_all(bill, completions).total_tokens == charged_all(bill, completions).prompt_tokens
            + charged_all(bill, completions).completion_tokens,
        charged_all(bill, completions).cost == sum_costs(completions),
        charged_all(bill, completions).query_count == completions.len(),
        charged_all(bill, completions).cache_retrievals == bill.cache_retrievals,
{
    lemma_billing_is_additive(bill, completions);
    lemma_totals_add_up(completions);
}

} // verus!

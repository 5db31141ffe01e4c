//! A prompt applied to the documents' completions that the cache holds.

use vstd::prelude::*;
use crate::models::gpt_models::GptModel;
use crate::models::queries::chat_query::Cacheable;
use crate::models::response::{ChatCompletionResponse, ChatCompletionResponseView};
use crate::models::temperature::Temperature;

verus! {

/// The key of a meta query: the prompt behind the prefix `Meta: `.
pub open spec fn meta_key(prompt: Seq<char>) -> Seq<char> {
    "Meta: "@ + prompt
}

/// One prompt run over the outputs of earlier document queries.
#[derive(Debug, PartialEq)]
pub struct MetaQuery {
    /// The prompt that was applied.
    pub prompt: String,
    /// The cost of the exchange, in microcents.
    pub cost: i64,
    /// The response to the prompt.
    pub response: ChatCompletionResponse,
    /// The time from sending the prompt to receiving the response.
    pub process_time: u64,
    /// The model that gave the response.
    pub model: GptModel,
    pub temperature: Temperature,
    /// Whether this value was read back rather than freshly completed.
    pub from_cache: bool,
}

pub struct MetaQueryView {
    pub prompt: Seq<char>,
    pub cost: int,
    pub response: ChatCompletionResponseView,
    pub process_time: u64,
    pub model: GptModel,
    pub temperature: Temperature,
    pub from_cache: bool,
}

impl View for MetaQuery {
    type V = MetaQueryView;

    open spec fn view(&self) -> MetaQueryView {
        MetaQueryView {
            prompt: self.prompt@,
            cost: self.cost as int,
            response: self.response@,
            process_time: self.process_time,
            model: self.model,
            temperature: self.temperature,
            from_cache: self.from_cache,
        }
    }
}

impl MetaQueryView {
    /// The key under which the query is cached.
    pub open spec fn key(self) -> Seq<char> {
        meta_key(self.prompt)
    }

    /// The same query, marked as read back.
    pub open spec fn cached(self) -> MetaQueryView {
        MetaQueryView { from_cache: true, ..self }
    }
}

impl Clone for MetaQuery {
    fn clone(&self) -> (copy: Self)
        ensures
            copy@ == self@,
    {
        MetaQuery {
            prompt: self.prompt.clone(),
            cost: self.cost,
            response: self.response.clone(),
            process_time: self.process_time,
            model: self.model,
            temperature: self.temperature,
            from_cache: self.from_cache,
        }
    }
}

impl MetaQuery {
    /// The key under which the meta completion of a prompt is cached.
    pub fn key(prompt: &str) -> (key: String)
        ensures
            key@ == meta_key(prompt@),
    {
        let mut key = String::from_str("Meta: ");
        key.append(prompt);
        key
    }
}

impl Cacheable for MetaQuery {
    open spec fn spec_key(&self) -> Seq<char> {
        self@.key()
    }

    fn key(&self) -> (key: String) {
        Self::key(self.prompt.as_str())
    }
}

} // verus!

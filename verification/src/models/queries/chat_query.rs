//! A plain prompt and its completion.

use vstd::prelude::*;
use crate::models::gpt_models::GptModel;
use crate::models::response::{ChatCompletionResponse, ChatCompletionResponseView};
use crate::models::temperature::Temperature;

verus! {

/// What can be kept in the cache: a value that names the key it is kept
/// under.
pub trait Cacheable {
    /// The key, as the contracts speak of it.
    spec fn spec_key(&self) -> Seq<char>;

    /// The key under which the value is cached.
    fn key(&self) -> (key: String)
        ensures
            key@ == self.spec_key(),
    ;
}

/// The key of a chat query: the prompt behind the prefix `Chat: `.
pub open spec fn chat_key(prompt: Seq<char>) -> Seq<char> {
    "Chat: "@ + prompt
}

/// One prompt sent for completion, with the response and what it cost.
#[derive(Debug, PartialEq)]
pub struct ChatQuery {
    /// The prompt that was sent.
    pub prompt: String,
    /// The cost of the exchange, in microcents.
    pub cost: i64,
    /// The response to the prompt.
    pub response: ChatCompletionResponse,
    /// The time from sending the prompt to receiving the response.
    pub process_time: u64,
    /// The model that gave the response.
    pub model: GptModel,
    pub temperature: Temperature,
    /// Whether this value was read back rather than freshly completed.
    pub from_cache: bool,
}

pub struct ChatQueryView {
    pub prompt: Seq<char>,
    pub cost: int,
    pub response: ChatCompletionResponseView,
    pub process_time: u64,
    pub model: GptModel,
    pub temperature: Temperature,
    pub from_cache: bool,
}

impl View for ChatQuery {
    type V = ChatQueryView;

    open spec fn view(&self) -> ChatQueryView {
        ChatQueryView {
            prompt: self.prompt@,
            cost: self.cost as int,
            response: self.response@,
            process_time: self.process_time,
            model: self.model,
            temperature: self.temperature,
            from_cache: self.from_cache,
        }
    }
}

impl ChatQueryView {
    /// The key under which the query is cached.
    pub open spec fn key(self) -> Seq<char> {
        chat_key(self.prompt)
    }

    /// The same query, marked as read back.
    pub open spec fn cached(self) -> ChatQueryView {
        ChatQueryView { from_cache: true, ..self }
    }
}

impl Clone for ChatQuery {
    fn clone(&self) -> (copy: Self)
        ensures
            copy@ == self@,
    {
        ChatQuery {
            prompt: self.prompt.clone(),
            cost: self.cost,
            response: self.response.clone(),
            process_time: self.process_time,
            model: self.model,
            temperature: self.temperature,
            from_cache: self.from_cache,
        }
    }
}

impl ChatQuery {
    /// The key under which the completion of a prompt is cached.
    pub fn key(prompt: &str) -> (key: String)
        ensures
            key@ == chat_key(prompt@),
    {
        let mut key = String::from_str("Chat: ");
        key.append(prompt);
        key
    }
}

impl Cacheable for ChatQuery {
    open spec fn spec_key(&self) -> Seq<char> {
        self@.key()
    }

    fn key(&self) -> (key: String) {
        Self::key(self.prompt.as_str())
    }
}

} // verus!

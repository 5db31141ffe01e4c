//! A prompt about a document and its completion.

use vstd::prelude::*;
use crate::models::gpt_models::GptModel;
use crate::models::queries::chat_query::Cacheable;
use crate::models::response::{ChatCompletionResponse, ChatCompletionResponseView};
use crate::models::temperature::Temperature;

verus! {

/// The key of a document query: the document's title, `: `, the prompt.
pub open spec fn text_key(prompt: Seq<char>, document_title: Seq<char>) -> Seq<char> {
    document_title + ": "@ + prompt
}

/// One prompt asked of one document, with the response and what it cost.
#[derive(Debug, PartialEq)]
pub struct TextQuery {
    /// The prompt that was asked of the document.
    pub prompt: String,
    /// The cost of the exchange, in microcents.
    pub cost: i64,
    /// The response to the prompt.
    pub response: ChatCompletionResponse,
    /// The time from sending the prompt to receiving the response.
    pub process_time: u64,
    /// The model that gave the response.
    pub model: GptModel,
    /// The title of the document, which is its file's name without the
    /// extension.
    pub document_title: String,
    pub temperature: Temperature,
    /// Whether this value was read back rather than freshly completed.
    pub from_cache: bool,
}

pub struct TextQueryView {
    pub prompt: Seq<char>,
    pub cost: int,
    pub response: ChatCompletionResponseView,
    pub process_time: u64,
    pub model: GptModel,
    pub document_title: Seq<char>,
    pub temperature: Temperature,
    pub from_cache: bool,
}

impl View for TextQuery {
    type V = TextQueryView;

    open spec fn view(&self) -> TextQueryView {
        TextQueryView {
            prompt: self.prompt@,
            cost: self.cost as int,
            response: self.response@,
            process_time: self.process_time,
            model: self.model,
            document_title: self.document_title@,
            temperature: self.temperature,
            from_cache: self.from_cache,
        }
    }
}

impl TextQueryView {
    /// The key under which the query is cached.
    pub open spec fn key(self) -> Seq<char> {
        text_key(self.prompt, self.document_title)
    }

    /// The same query, marked as read back.
    pub open spec fn cached(self) -> TextQueryView {
        TextQueryView { from_cache: true, ..self }
    }
}

impl Clone for TextQuery {
    fn clone(&self) -> (copy: Self)
        ensures
            copy@ == self@,
    {
        TextQuery {
            prompt: self.prompt.clone(),
            cost: self.cost,
            response: self.response.clone(),
            process_time: self.process_time,
            model: self.model,
            document_title: self.document_title.clone(),
            temperature: self.temperature,
            from_cache: self.from_cache,
        }
    }
}

impl TextQuery {
    /// The key under which the completion of a prompt about a document is
    /// cached.
    pub fn key(prompt: &str, document_title: &str) -> (key: String)
        ensures
            key@ == text_key(prompt@, document_title@),
    {
        let mut key = String::from_str(document_title);
        key.append(": ");
        key.append(prompt);
        key
    }
}

impl Cacheable for TextQuery {
    open spec fn spec_key(&self) -> Seq<char> {
        self@.key()
    }

    fn key(&self) -> (key: String) {
        Self::key(self.prompt.as_str(), self.document_title.as_str())
    }
}

} // verus!

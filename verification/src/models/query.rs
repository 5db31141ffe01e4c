//! One billable exchange with the completion service, of any kind.

use vstd::prelude::*;
use crate::models::gpt_models::GptModel;
use crate::models::queries::chat_query::{chat_key, Cacheable, ChatQuery, ChatQueryView};
use crate::models::queries::meta_query::{meta_key, MetaQuery, MetaQueryView};
use crate::models::queries::text_query::{text_key, TextQuery, TextQueryView};
use crate::models::req_and_res::Usage;
use crate::models::response::{ChatCompletionResponse, ChatCompletionResponseView};
use crate::models::temperature::Temperature;

verus! {

/// A query of one of the three kinds. A chat query is cached under its
/// prompt, a document query under the document's title and the prompt, a meta
/// query under its prompt; each kind has a prefix of its own.
#[derive(Debug, PartialEq)]
pub enum Query {
    ChatQuery(ChatQuery),
    TextQuery(TextQuery),
    MetaQuery(MetaQuery),
}

pub enum QueryView {
    ChatQuery(ChatQueryView),
    TextQuery(TextQueryView),
    MetaQuery(MetaQueryView),
}

impl View for Query {
    type V = QueryView;

    open spec fn view(&self) -> QueryView {
        match self {
            Query::ChatQuery(q) => QueryView::ChatQuery(q@),
            Query::TextQuery(q) => QueryView::TextQuery(q@),
            Query::MetaQuery(q) => QueryView::MetaQuery(q@),
        }
    }
}

impl QueryView {
    /// The key under which the query is cached.
    pub open spec fn key(self) -> Seq<char> {
        match self {
            QueryView::ChatQuery(q) => q.key(),
            QueryView::TextQuery(q) => q.key(),
            QueryView::MetaQuery(q) => q.key(),
        }
    }

    pub open spec fn response(self) -> ChatCompletionResponseView {
        match self {
            QueryView::ChatQuery(q) => q.response,
            QueryView::TextQuery(q) => q.response,
            QueryView::MetaQuery(q) => q.response,
        }
    }

    pub open spec fn model(self) -> GptModel {
        match self {
            QueryView::ChatQuery(q) => q.model,
            QueryView::TextQuery(q) => q.model,
            QueryView::MetaQuery(q) => q.model,
        }
    }

    /// What the exchange used.
    pub open spec fn usage(self) -> Usage {
        self.response().usage
    }

    pub open spec fn prompt(self) -> Seq<char> {
        match self {
            QueryView::ChatQuery(q) => q.prompt,
            QueryView::TextQuery(q) => q.prompt,
            QueryView::MetaQuery(q) => q.prompt,
        }
    }

    pub open spec fn cost(self) -> int {
        match self {
            QueryView::ChatQuery(q) => q.cost,
            QueryView::TextQuery(q) => q.cost,
            QueryView::MetaQuery(q) => q.cost,
        }
    }

    pub open spec fn process_time(self) -> u64 {
        match self {
            QueryView::ChatQuery(q) => q.process_time,
            QueryView::TextQuery(q) => q.process_time,
            QueryView::MetaQuery(q) => q.process_time,
        }
    }

    pub open spec fn temperature(self) -> Temperature {
        match self {
            QueryView::ChatQuery(q) => q.temperature,
            QueryView::TextQuery(q) => q.temperature,
            QueryView::MetaQuery(q) => q.temperature,
        }
    }

    /// The same query, marked as read back.
    pub open spec fn cached(self) -> QueryView {
        match self {
            QueryView::ChatQuery(q) => QueryView::ChatQuery(q.cached()),
            QueryView::TextQuery(q) => QueryView::TextQuery(q.cached()),
            QueryView::MetaQuery(q) => QueryView::MetaQuery(q.cached()),
        }
    }

    pub open spec fn from_cache(self) -> bool {
        match self {
            QueryView::ChatQuery(q) => q.from_cache,
            QueryView::TextQuery(q) => q.from_cache,
            QueryView::MetaQuery(q) => q.from_cache,
        }
    }
}

impl Clone for Query {
    fn clone(&self) -> (copy: Self)
        ensures
            copy@ == self@,
    {
        match self {
            Query::ChatQuery(q) => Query::ChatQuery(q.clone()),
            Query::TextQuery(q) => Query::TextQuery(q.clone()),
            Query::MetaQuery(q) => Query::MetaQuery(q.clone()),
        }
    }
}

impl Query {
    /// The response that the query holds.
    pub fn response(self) -> (response: ChatCompletionResponse)
        ensures
            response@ == self@.response(),
    {
        match self {
            Query::ChatQuery(q) => q.response,
            Query::TextQuery(q) => q.response,
            Query::MetaQuery(q) => q.response,
        }
    }

    /// The model that answered the query.
    pub fn model(self) -> (model: GptModel)
        ensures
            model == self@.model(),
    {
        match self {
            Query::ChatQuery(q) => q.model,
            Query::TextQuery(q) => q.model,
            Query::MetaQuery(q) => q.model,
        }
    }

    /// What the exchange used.
    pub fn usage(&self) -> (usage: Usage)
        ensures
            usage == self@.usage(),
    {
        match self {
            Query::ChatQuery(q) => q.response.usage,
            Query::TextQuery(q) => q.response.usage,
            Query::MetaQuery(q) => q.response.usage,
        }
    }

    /// The chat query inside. The query must be one.
    pub fn expect_as_chat(self) -> (query: ChatQuery)
        requires
            self is ChatQuery,
        ensures
            self == Query::ChatQuery(query),
    {
        match self {
            Query::ChatQuery(query) => query,
            _ => unreached(),
        }
    }

    /// The document query inside. The query must be one.
    pub fn expect_as_text(self) -> (query: TextQuery)
        requires
            self is TextQuery,
        ensures
            self == Query::TextQuery(query),
    {
        match self {
            Query::TextQuery(query) => query,
            _ => unreached(),
        }
    }

    /// The meta query inside. The query must be one.
    pub fn expect_as_meta(self) -> (query: MetaQuery)
        requires
            self is MetaQuery,
        ensures
            self == Query::MetaQuery(query),
    {
        match self {
            Query::MetaQuery(query) => query,
            _ => unreached(),
        }
    }
}

impl Cacheable for Query {
    open spec fn spec_key(&self) -> Seq<char> {
        self@.key()
    }

    fn key(&self) -> (key: String) {
        match self {
            Query::ChatQuery(query) => query.key(),
            Query::TextQuery(query) => query.key(),
            Query::MetaQuery(query) => query.key(),
        }
    }
}

/// A chat key is the key of one prompt only.
pub proof fn lemma_chat_key_injective(one: Seq<char>, other: Seq<char>)
    ensures
        chat_key(one) == chat_key(other) <==> one == other,
{
    if chat_key(one) == chat_key(other) {
        lemma_same_prefix_cancels("Chat: "@, one, other);
    }
}

/// A meta key is the key of one prompt only.
pub proof fn lemma_meta_key_injective(one: Seq<char>, other: Seq<char>)
    ensures
        meta_key(one) == meta_key(other) <==> one == other,
{
    if meta_key(one) == meta_key(other) {
        lemma_same_prefix_cancels("Meta: "@, one, other);
    }
}

/// A document key, for a given title, is the key of one prompt only.
pub proof fn lemma_text_key_injective_in_prompt(title: Seq<char>, one: Seq<char>, other: Seq<char>)
    ensures
        text_key(one, title) == text_key(other, title) <==> one == other,
{
    if text_key(one, title) == text_key(other, title) {
        lemma_same_prefix_cancels(title + ": "@, one, other);
    }
}

/// No chat query shares its key with a meta query, whatever their prompts.
pub proof fn lemma_chat_and_meta_keys_differ(chat_prompt: Seq<char>, meta_prompt: Seq<char>)
    ensures
        chat_key(chat_prompt) != meta_key(meta_prompt),
{
    reveal_strlit("Chat: ");
    reveal_strlit("Meta: ");
    assert(chat_key(chat_prompt)[0] == 'C');
    assert(meta_key(meta_prompt)[0] == 'M');
}

/// For one and the same prompt, a document query shares its key with the chat
/// query exactly when the document is titled `Chat`, and with the meta query
/// exactly when it is titled `Meta`.
pub proof fn lemma_text_key_meets_other_kinds(prompt: Seq<char>, title: Seq<char>)
    ensures
        text_key(prompt, title) == chat_key(prompt) <==> title == "Chat"@,
        text_key(prompt, title) == meta_key(prompt) <==> title == "Meta"@,
{
    reveal_strlit("Chat: ");
    reveal_strlit("Meta: ");
    reveal_strlit("Chat");
    reveal_strlit("Meta");
    reveal_strlit(": ");
    assert("Chat"@ + ": "@ =~= "Chat: "@);
    assert("Meta"@ + ": "@ =~= "Meta: "@);
    if text_key(prompt, title) == chat_key(prompt) {
        lemma_same_suffix_cancels(title + ": "@, "Chat: "@, prompt);
        lemma_same_suffix_cancels(title, "Chat"@, ": "@);
    }
    if text_key(prompt, title) == meta_key(prompt) {
        lemma_same_suffix_cancels(title + ": "@, "Meta: "@, prompt);
        lemma_same_suffix_cancels(title, "Meta"@, ": "@);
    }
}

proof fn lemma_same_prefix_cancels(prefix: Seq<char>, a: Seq<char>, b: Seq<char>)
    requires
        prefix + a == prefix + b,
    ensures
        a == b,
{
    assert(a =~= (prefix + a).subrange(prefix.len() as int, (prefix + a).len() as int));
    assert(b =~= (prefix + b).subrange(prefix.len() as int, (prefix + b).len() as int));
}

proof fn lemma_same_suffix_cancels(a: Seq<char>, b: Seq<char>, suffix: Seq<char>)
    requires
        a + suffix == b + suffix,
    ensures
        a == b,
{
    assert((a + suffix).len() == a.len() + suffix.len());
    assert((b + suffix).len() == b.len() + suffix.len());
    assert(a =~= (a + suffix).subrange(0, a.len() as int));
    assert(b =~= (b + suffix).subrange(0, b.len() as int));
}

} // verus!

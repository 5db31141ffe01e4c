//! The three ways to a completion: a plain prompt, a prompt about a
//! document, and a prompt about what the cache holds on documents.
//!
//! Each way has two halves, and the caller stands between them. The first
//! half looks into the cache: it either hands back the cached query, or says
//! what is needed from outside. The second half takes the service's response
//! and records it in cache and bill. A failure outside is the caller's to
//! report: it calls no second half, so cache and bill stay as they were.

use vstd::prelude::*;
use crate::constants::cost_factors::cost_of;
use crate::constants::pdf_path::DEFAULT_PDF_DIR;
use crate::models::client::account::{OpenAIAccount, OpenAIAccountView, Status};
use crate::models::cache::{lemma_op_rewrites_once, CacheOp};
use crate::models::effects::{buried, cache_rewrites, effect_views, Disk, Effect, EffectView};
use crate::models::entries::{distinct_keys, entry_views, lemma_put, lookup, EntryView};
use crate::models::queries::chat_query::{chat_key, ChatQuery, ChatQueryView};
use crate::models::queries::meta_query::{meta_key, MetaQuery, MetaQueryView};
use crate::models::queries::text_query::{text_key, TextQuery, TextQueryView};
use crate::models::query::{Query, QueryView};
use crate::models::req_and_res::{
    message_views, ChatCompletionMessage, ChatCompletionMessageView, MessageRole,
};
use crate::models::request::{ChatCompletionRequest, ChatCompletionRequestView};
use crate::models::response::{ChatCompletionResponse, ChatCompletionResponseView};
use crate::models::strings::{decimal, u64_to_decimal};

verus! {

/// What the service is told before it receives a document.
pub const DOCUMENT_FRAME: &'static str =
    "You will receive a document, and a prompt regarding the document.";

/// What the service is told before it receives the essays.
pub const META_FRAME: &'static str =
    "You will receive a prompt, and data to which you will apply that prompt.";

/// What the first half of a completion found.
#[derive(Debug, PartialEq)]
pub enum Step<Q, M> {
    /// The cache held the query. It is handed back marked as read from the
    /// cache, with the writes that are owed.
    Cached(Q, Vec<Effect>),
    /// The cache did not hold the query. This is what is needed next.
    Needed(M),
}

/// The pages of a document, one after another.
pub open spec fn joined(pages: Seq<Seq<char>>) -> Seq<char>
    decreases pages.len(),
{
    if pages.len() == 0 {
        Seq::empty()
    } else {
        joined(pages.drop_last()) + pages.last()
    }
}

/// The characters of each of the strings, in order.
pub open spec fn page_views(pages: Seq<String>) -> Seq<Seq<char>> {
    pages.map_values(|p: String| p@)
}

/// Where the document with the given title lies in the given directory: a
/// directory that ends in a slash is followed by the title; one that holds a
/// backslash is followed by a backslash and the title; any other by a slash
/// and the title. The file's name ends in `.pdf`.
pub open spec fn path_to_pdf(dir: Seq<char>, pdf_title: Seq<char>) -> Seq<char> {
    if dir.len() > 0 && dir.last() == '/' {
        dir + pdf_title + ".pdf"@
    } else if dir.contains('\\') {
        dir + "\\"@ + pdf_title + ".pdf"@
    } else {
        dir + "/"@ + pdf_title + ".pdf"@
    }
}

/// The directory in which documents are looked for.
pub open spec fn pdf_dir(input_dir: Option<String>) -> Seq<char> {
    match input_dir {
        Some(dir) => dir@,
        None => DEFAULT_PDF_DIR@,
    }
}

/// The number of document queries among the entries.
pub open spec fn essay_count(entries: Seq<EntryView>) -> nat
    decreases entries.len(),
{
    if entries.len() == 0 {
        0
    } else {
        essay_count(entries.drop_last()) + if entries.last().1 is TextQuery {
            1nat
        } else {
            0nat
        }
    }
}

/// Whether every document query among the entries has a response with a
/// first choice that has a text.
pub open spec fn essays_complete(entries: Seq<EntryView>) -> bool {
    forall|i: int|
        0 <= i < entries.len() && (#[trigger] entries[i]).1 is TextQuery
            ==> entries[i].1.response().first_content() is Some
}

/// The essays: for each document query among the entries, in the order of
/// the entries, two line feeds, its number counted from one, a closing
/// bracket, a line feed, and the text of its response's first choice.
pub open spec fn essay_list(entries: Seq<EntryView>) -> Seq<char>
    decreases entries.len(),
{
    if entries.len() == 0 {
        Seq::empty()
    } else {
        let earlier = essay_list(entries.drop_last());
        match entries.last().1 {
            QueryView::TextQuery(query) => earlier + "\n\n"@ + decimal(essay_count(entries))
                + ")\n"@ + query.response.first_content()->Some_0,
            _ => earlier,
        }
    }
}

impl OpenAIAccountView {
    /// The request that asks for the completion of a plain prompt: the
    /// prompt as the user's message, at the account's temperature.
    pub open spec fn chat_request(self, prompt: Seq<char>) -> ChatCompletionRequestView {
        ChatCompletionRequestView::plain(
            self.model,
            seq![ChatCompletionMessageView::plain(MessageRole::user, prompt)],
            Some(self.temperature),
        )
    }

    /// The request that asks a prompt of a document: the frame as the
    /// system's message, the document as the assistant's, the prompt as the
    /// user's, at the account's temperature.
    pub open spec fn pdf_request(
        self,
        prompt: Seq<char>,
        document: Seq<char>,
    ) -> ChatCompletionRequestView {
        ChatCompletionRequestView::plain(
            self.model,
            seq![
                ChatCompletionMessageView::plain(MessageRole::system, DOCUMENT_FRAME@),
                ChatCompletionMessageView::plain(MessageRole::assistant, document),
                ChatCompletionMessageView::plain(MessageRole::user, prompt),
            ],
            Some(self.temperature),
        )
    }

    /// The request that asks a prompt of the essays in the cache: the frame
    /// as a message of the user, the essays as the assistant's, the prompt as
    /// the user's, with no temperature.
    pub open spec fn meta_request(self, prompt: Seq<char>) -> ChatCompletionRequestView {
        ChatCompletionRequestView::plain(
            self.model,
            seq![
                ChatCompletionMessageView::plain(MessageRole::user, META_FRAME@),
                ChatCompletionMessageView::plain(
                    MessageRole::assistant,
                    "Data: "@ + essay_list(self.cache),
                ),
                ChatCompletionMessageView::plain(MessageRole::user, "Prompt: "@ + prompt),
            ],
            None,
        )
    }

    /// The chat query that a response to a prompt makes: priced by the
    /// account's model, and not from the cache.
    pub open spec fn fresh_chat(
        self,
        prompt: Seq<char>,
        response: ChatCompletionResponseView,
        process_time: u64,
    ) -> ChatQueryView {
        ChatQueryView {
            prompt,
            cost: cost_of(response.usage, self.model),
            response,
            process_time,
            model: self.model,
            temperature: self.temperature,
            from_cache: false,
        }
    }

    /// The document query that a response to a prompt about a document
    /// makes: priced by the account's model, and not from the cache.
    pub open spec fn fresh_text(
        self,
        pdf_title: Seq<char>,
        prompt: Seq<char>,
        response: ChatCompletionResponseView,
        process_time: u64,
    ) -> TextQueryView {
        TextQueryView {
            prompt,
            cost: cost_of(response.usage, self.model),
            response,
            process_time,
            model: self.model,
            document_title: pdf_title,
            temperature: self.temperature,
            from_cache: false,
        }
    }

    /// The meta query that a response to a prompt about the essays makes:
    /// priced by the account's model, and not from the cache.
    pub open spec fn fresh_meta(
        self,
        prompt: Seq<char>,
        response: ChatCompletionResponseView,
        process_time: u64,
    ) -> MetaQueryView {
        MetaQueryView {
            prompt,
            cost: cost_of(response.usage, self.model),
            response,
            process_time,
            model: self.model,
            temperature: self.temperature,
            from_cache: false,
        }
    }
}

/// Where the document with the given title lies. Without a directory, the
/// default one is taken.
pub fn pdf_path(pdf_title: &str, input_dir: Option<String>) -> (path: String)
    ensures
        path@ == path_to_pdf(pdf_dir(input_dir), pdf_title@),
{
    let mut path = match input_dir {
        None => String::from_str(DEFAULT_PDF_DIR),
        Some(dir) => dir,
    };
    let ghost dir = path@;
    let mut ends_with_slash = false;
    let mut has_backslash = false;
    for c in it: path.as_str().chars()
        invariant
            it.seq() == dir,
            ends_with_slash == (it.index() > 0 && dir[it.index() - 1] == '/'),
            has_backslash == (exists|j: int| 0 <= j < it.index() && dir[j] == '\\'),
    {
        ends_with_slash = c == '/';
        if c == '\\' {
            has_backslash = true;
        }
    }
    if ends_with_slash {
    } else if has_backslash {
        path.append("\\");
    } else {
        path.append("/");
    }
    path.append(pdf_title);
    path.append(".pdf");
    path
}

/// The pages of a document, one after another.
pub fn join_pages(pages: &Vec<String>) -> (document: String)
    ensures
        document@ == joined(page_views(pages@)),
{
    let mut document = String::new();
    let ghost all = page_views(pages@);
    let mut i: usize = 0;
    assert(all.take(0) =~= Seq::<Seq<char>>::empty());
    while i < pages.len()
        invariant
            i <= pages.len(),
            all == page_views(pages@),
            document@ == joined(all.take(i as int)),
        decreases pages.len() - i,
    {
        proof {
            assert(all.take(i + 1).drop_last() =~= all.take(i as int));
            assert(all.take(i + 1).last() == pages@[i as int]@);
        }
        document.append(pages[i].as_str());
        i += 1;
    }
    assert(all.take(i as int) =~= all);
    document
}

fn three_messages(
    first: ChatCompletionMessage,
    second: ChatCompletionMessage,
    third: ChatCompletionMessage,
) -> (messages: Vec<ChatCompletionMessage>)
    ensures
        message_views(messages@) == seq![first@, second@, third@],
{
    let mut messages: Vec<ChatCompletionMessage> = Vec::new();
    messages.push(first);
    messages.push(second);
    messages.push(third);
    assert(message_views(messages@) =~= seq![first@, second@, third@]);
    messages
}

impl OpenAIAccount {
    fn count_retrieval(&mut self) -> (effects: Vec<Effect>)
        requires
            old(self)@.bill.retrieved().fits(),
        ensures
            final(self)@ == old(self)@.served_from_cache(),
            effect_views(effects@) == seq![EffectView::RewriteBill],
    {
        self.bill.cache_retrievals += 1;
        self.bill.update(None)
    }

    fn record(&mut self, query: Query) -> (effects: Vec<Effect>)
        requires
            old(self)@.bill.updated(Some(query@)).fits(),
        ensures
            final(self)@ == old(self)@.recorded(query@),
            effect_views(effects@) == old(self)@.recording_effects(query@),
    {
        let mut effects = self.cache.insert(&query);
        let ghost cached = effect_views(effects@);
        let mut billed = self.bill.update(Some(query));
        proof {
            let owed = effect_views(billed@);
            assert(owed.len() == 1 && owed[0] == EffectView::RewriteBill);
            assert(billed@.len() == 1 && billed@[0]@ == EffectView::RewriteBill);
        }
        effects.append(&mut billed);
        assert(effect_views(effects@) =~= cached.push(EffectView::RewriteBill));
        effects
    }

    /// The request that asks for the completion of a plain prompt.
    pub fn chat_request(&self, prompt: &str) -> (request: ChatCompletionRequest)
        ensures
            request@ == self@.chat_request(prompt@),
    {
        let mut messages: Vec<ChatCompletionMessage> = Vec::new();
        let message = ChatCompletionMessage::plain(MessageRole::user, String::from_str(prompt));
        messages.push(message);
        assert(message_views(messages@) =~= seq![message@]);
        ChatCompletionRequest {
            model: self.model,
            messages,
            functions: None,
            function_call: None,
            temperature: Some(self.temperature),
        }
    }

    /// The request that asks a prompt of a document, given the texts of the
    /// document's pages in order.
    pub fn pdf_request(&self, prompt: &str, pages: &Vec<String>) -> (request: ChatCompletionRequest)
        ensures
            request@ == self@.pdf_request(prompt@, joined(page_views(pages@))),
    {
        let messages = three_messages(
            ChatCompletionMessage::plain(MessageRole::system, String::from_str(DOCUMENT_FRAME)),
            ChatCompletionMessage::plain(MessageRole::assistant, join_pages(pages)),
            ChatCompletionMessage::plain(MessageRole::user, String::from_str(prompt)),
        );
        ChatCompletionRequest {
            model: self.model,
            messages,
            functions: None,
            function_call: None,
            temperature: Some(self.temperature),
        }
    }

    /// Whether every document query in the cache has a response with a
    /// first choice that has a text, so that the essays can be listed.
    pub fn essays_complete(&self) -> (complete: bool)
        ensures
            complete == essays_complete(self@.cache),
    {
        let pairs = self.cache.entries.pairs();
        let ghost entries = self@.cache;
        let mut i: usize = 0;
        while i < pairs.len()
            invariant
                i <= pairs.len(),
                entries == self@.cache,
                entries == entry_views(pairs@),
                essays_complete(entries.take(i as int)),
            decreases pairs.len() - i,
        {
            if let Query::TextQuery(query) = &pairs[i].1 {
                if query.response.first_content().is_none() {
                    proof {
                        assert(entries[i as int].1 == QueryView::TextQuery(query@));
                        assert(entries[i as int].1.response().first_content() is None);
                    }
                    return false;
                }
            }
            assert forall|j: int|
                0 <= j < i + 1 && (#[trigger] entries.take(i + 1)[j]).1 is TextQuery implies entries.take(
                i + 1,
            )[j].1.response().first_content() is Some by {
                if j < i {
                    assert(entries.take(i as int)[j] == entries[j]);
                }
            }
            i += 1;
        }
        assert(entries.take(i as int) =~= entries);
        true
    }

    /// The essays that the cache holds, as the meta request lists them.
    pub fn essay_list(&self) -> (essays: String)
        requires
            essays_complete(self@.cache),
        ensures
            essays@ == essay_list(self@.cache),
    {
        let pairs = self.cache.entries.pairs();
        let ghost entries = self@.cache;
        let mut essays = String::new();
        let mut count: usize = 0;
        let mut i: usize = 0;
        assert(entries.take(0) =~= Seq::<EntryView>::empty());
        while i < pairs.len()
            invariant
                i <= pairs.len(),
                entries == entry_views(pairs@),
                essays_complete(entries),
                count == essay_count(entries.take(i as int)),
                count <= i,
                essays@ == essay_list(entries.take(i as int)),
            decreases pairs.len() - i,
        {
            proof {
                assert(entries.take(i + 1).drop_last() =~= entries.take(i as int));
                assert(entries.take(i + 1).last() == entries[i as int]);
            }
            if let Query::TextQuery(query) = &pairs[i].1 {
                count += 1;
                assert(entries[i as int].1 is TextQuery);
                let ghost earlier = essays@;
                essays.append("\n\n");
                essays.append(u64_to_decimal(count as u64).as_str());
                essays.append(")\n");
                match query.response.first_content() {
                    Some(content) => {
                        essays.append(content.as_str());
                    },
                    None => {
                        assert(false);
                    },
                }
                assert(essays@ =~= earlier + "\n\n"@ + decimal(count as nat) + ")\n"@
                    + query@.response.first_content()->Some_0);
            }
            i += 1;
        }
        assert(entries.take(i as int) =~= entries);
        essays
    }

    /// The request that asks a prompt of the essays in the cache.
    pub fn meta_request(&self, prompt: &str) -> (request: ChatCompletionRequest)
        requires
            essays_complete(self@.cache),
        ensures
            request@ == self@.meta_request(prompt@),
    {
        let mut data = String::from_str("Data: ");
        data.append(self.essay_list().as_str());
        let mut instruction = String::from_str("Prompt: ");
        instruction.append(prompt);
        let messages = three_messages(
            ChatCompletionMessage::plain(MessageRole::user, String::from_str(META_FRAME)),
            ChatCompletionMessage::plain(MessageRole::assistant, data),
            ChatCompletionMessage::plain(MessageRole::user, instruction),
        );
        ChatCompletionRequest {
            model: self.model,
            messages,
            functions: None,
            function_call: None,
            temperature: None,
        }
    }

    /// The first half of the completion of a plain prompt.
    ///
    /// Where the cache holds a chat query under the prompt's key, the query
    /// is handed back marked as read from the cache, one more cache retrieval
    /// is counted, and the bill's mirror is to be rewritten; the cache is not
    /// touched. Where the cache holds a query of another kind there, nothing
    /// changes and the error says so. Where the cache holds nothing there,
    /// nothing changes and the request to send is handed back.
    pub fn get_completion(&mut self, prompt: &str) -> (step: Result<
        Step<ChatQuery, ChatCompletionRequest>,
        Status,
    >)
        requires
            lookup(old(self)@.cache, chat_key(prompt@)) matches Some(QueryView::ChatQuery(_))
                ==> old(self)@.bill.retrieved().fits(),
        ensures
            match lookup(old(self)@.cache, chat_key(prompt@)) {
                Some(QueryView::ChatQuery(cached)) => {
                    &&& final(self)@ == old(self)@.served_from_cache()
                    &&& step matches Ok(Step::Cached(query, effects))
                    &&& query@ == cached.cached()
                    &&& effect_views(effects@) == seq![EffectView::RewriteBill]
                },
                Some(_) => {
                    &&& final(self)@ == old(self)@
                    &&& step == Err::<Step<ChatQuery, ChatCompletionRequest>, Status>(
                        Status::RetrievedUnexpectedQueryType,
                    )
                },
                None => {
                    &&& final(self)@ == old(self)@
                    &&& step matches Ok(Step::Needed(request))
                    &&& request@ == old(self)@.chat_request(prompt@)
                },
            },
    {
        let key = ChatQuery::key(prompt);
        let mut query = match self.cache.entries.get(&key) {
            Some(Query::ChatQuery(cached)) => cached.clone(),
            Some(_) => {
                return Err(Status::RetrievedUnexpectedQueryType);
            },
            None => {
                return Ok(Step::Needed(self.chat_request(prompt)));
            },
        };
        query.from_cache = true;
        let effects = self.count_retrieval();
        Ok(Step::Cached(query, effects))
    }

    /// The second half of the completion of a plain prompt: makes the query
    /// from the response, keeps it in the cache under the prompt's key and
    /// charges the bill with it. What the key led to before is to be buried,
    /// the cache's mirror is to be rewritten, then the bill's.
    pub fn record_completion(
        &mut self,
        prompt: &str,
        response: ChatCompletionResponse,
        process_time: u64,
    ) -> (done: (ChatQuery, Vec<Effect>))
        requires
            old(self)@.bill.charged(response.usage, cost_of(response.usage, old(self).model)).fits(),
        ensures
            done.0@ == old(self)@.fresh_chat(prompt@, response@, process_time),
            final(self)@ == old(self)@.recorded(QueryView::ChatQuery(done.0@)),
            effect_views(done.1@) == old(self)@.recording_effects(QueryView::ChatQuery(done.0@)),
    {
        let cost = response.cost(&self.model);
        let query = ChatQuery {
            prompt: String::from_str(prompt),
            response,
            cost,
            process_time,
            model: self.model,
            temperature: self.temperature,
            from_cache: false,
        };
        let effects = self.record(Query::ChatQuery(query.clone()));
        (query, effects)
    }

    /// The first half of the completion of a prompt about a document.
    ///
    /// Where the cache holds a document query under the key of title and
    /// prompt, the query is handed back marked as read from the cache, one
    /// more cache retrieval is counted, and the bill's mirror is to be
    /// rewritten; the cache is not touched. Where the cache holds a query of
    /// another kind there, nothing changes and the error says so. Where the
    /// cache holds nothing there, nothing changes and the place of the
    /// document, whose text is needed next, is handed back.
    pub fn apply_prompt_to_pdf(
        &mut self,
        pdf_title: &str,
        prompt: &str,
        input_dir: Option<String>,
    ) -> (step: Result<Step<TextQuery, String>, Status>)
        requires
            lookup(old(self)@.cache, text_key(prompt@, pdf_title@)) matches Some(
                QueryView::TextQuery(_),
            ) ==> old(self)@.bill.retrieved().fits(),
        ensures
            match lookup(old(self)@.cache, text_key(prompt@, pdf_title@)) {
                Some(QueryView::TextQuery(cached)) => {
                    &&& final(self)@ == old(self)@.served_from_cache()
                    &&& step matches Ok(Step::Cached(query, effects))
                    &&& query@ == cached.cached()
                    &&& effect_views(effects@) == seq![EffectView::RewriteBill]
                },
                Some(_) => {
                    &&& final(self)@ == old(self)@
                    &&& step == Err::<Step<TextQuery, String>, Status>(
                        Status::RetrievedUnexpectedQueryType,
                    )
                },
                None => {
                    &&& final(self)@ == old(self)@
                    &&& step matches Ok(Step::Needed(path))
                    &&& path@ == path_to_pdf(pdf_dir(input_dir), pdf_title@)
                },
            },
    {
        let key = TextQuery::key(prompt, pdf_title);
        let mut query = match self.cache.entries.get(&key) {
            Some(Query::TextQuery(cached)) => cached.clone(),
            Some(_) => {
                return Err(Status::RetrievedUnexpectedQueryType);
            },
            None => {
                return Ok(Step::Needed(pdf_path(pdf_title, input_dir)));
            },
        };
        query.from_cache = true;
        let effects = self.count_retrieval();
        Ok(Step::Cached(query, effects))
    }

    /// The second half of the completion of a prompt about a document: makes
    /// the query from the response, keeps it in the cache under the key of
    /// title and prompt and charges the bill with it. What the key led to
    /// before is to be buried, the cache's mirror is to be rewritten, then
    /// the bill's.
    pub fn record_pdf_completion(
        &mut self,
        pdf_title: &str,
        prompt: &str,
        response: ChatCompletionResponse,
        process_time: u64,
    ) -> (done: (TextQuery, Vec<Effect>))
        requires
            old(self)@.bill.charged(response.usage, cost_of(response.usage, old(self).model)).fits(),
        ensures
            done.0@ == old(self)@.fresh_text(pdf_title@, prompt@, response@, process_time),
            final(self)@ == old(self)@.recorded(QueryView::TextQuery(done.0@)),
            effect_views(done.1@) == old(self)@.recording_effects(QueryView::TextQuery(done.0@)),
    {
        let cost = response.cost(&self.model);
        let query = TextQuery {
            prompt: String::from_str(prompt),
            response,
            document_title: String::from_str(pdf_title),
            model: self.model,
            process_time,
            cost,
            temperature: self.temperature,
            from_cache: false,
        };
        let effects = self.record(Query::TextQuery(query.clone()));
        (query, effects)
    }

    /// The first half of the completion of a prompt about the essays in the
    /// cache.
    ///
    /// Where the cache holds a meta query under the prompt's key, the query
    /// is handed back marked as read from the cache, one more cache retrieval
    /// is counted, and the bill's mirror is to be rewritten; the cache is not
    /// touched. Where the cache holds a query of another kind there, nothing
    /// changes and the error says so. Where the cache holds nothing there,
    /// nothing changes and the request to send, which lists the essays in the
    /// order of the cache's entries, is handed back.
    pub fn meta_complete_cache(&mut self, prompt: &str) -> (step: Result<
        Step<MetaQuery, ChatCompletionRequest>,
        Status,
    >)
        requires
            lookup(old(self)@.cache, meta_key(prompt@)) matches Some(QueryView::MetaQuery(_))
                ==> old(self)@.bill.retrieved().fits(),
            lookup(old(self)@.cache, meta_key(prompt@)) is None ==> essays_complete(
                old(self)@.cache,
            ),
        ensures
            match lookup(old(self)@.cache, meta_key(prompt@)) {
                Some(QueryView::MetaQuery(cached)) => {
                    &&& final(self)@ == old(self)@.served_from_cache()
                    &&& step matches Ok(Step::Cached(query, effects))
                    &&& query@ == cached.cached()
                    &&& effect_views(effects@) == seq![EffectView::RewriteBill]
                },
                Some(_) => {
                    &&& final(self)@ == old(self)@
                    &&& step == Err::<Step<MetaQuery, ChatCompletionRequest>, Status>(
                        Status::RetrievedUnexpectedQueryType,
                    )
                },
                None => {
                    &&& final(self)@ == old(self)@
                    &&& step matches Ok(Step::Needed(request))
                    &&& request@ == old(self)@.meta_request(prompt@)
                },
            },
    {
        let key = MetaQuery::key(prompt);
        let mut query = match self.cache.entries.get(&key) {
            Some(Query::MetaQuery(cached)) => cached.clone(),
            Some(_) => {
                return Err(Status::RetrievedUnexpectedQueryType);
            },
            None => {
                return Ok(Step::Needed(self.meta_request(prompt)));
            },
        };
        query.from_cache = true;
        let effects = self.count_retrieval();
        Ok(Step::Cached(query, effects))
    }

    /// The second half of the completion of a prompt about the essays: makes
    /// the query from the response, keeps it in the cache under the prompt's
    /// key and charges the bill with it. What the key led to before is to be
    /// buried, the cache's mirror is to be rewritten, then the bill's.
    pub fn record_meta_completion(
        &mut self,
        prompt: &str,
        response: ChatCompletionResponse,
        process_time: u64,
    ) -> (done: (MetaQuery, Vec<Effect>))
        requires
            old(self)@.bill.charged(response.usage, cost_of(response.usage, old(self).model)).fits(),
        ensures
            done.0@ == old(self)@.fresh_meta(prompt@, response@, process_time),
            final(self)@ == old(self)@.recorded(QueryView::MetaQuery(done.0@)),
            effect_views(done.1@) == old(self)@.recording_effects(QueryView::MetaQuery(done.0@)),
    {
        let cost = response.cost(&self.model);
        let query = MetaQuery {
            prompt: String::from_str(prompt),
            response,
            model: self.model,
            process_time,
            cost,
            temperature: self.temperature,
            from_cache: false,
        };
        let effects = self.record(Query::MetaQuery(query.clone()));
        (query, effects)
    }
}

/// Asking twice gives the same answer, the second time from the cache: once
/// the response to a plain prompt is recorded, the prompt's key leads to the
/// query that was made of it, which is not marked as read from the cache; so
/// the next first half for the same prompt hands back that query, with the
/// same response, marked as read from the cache, and leaves the cache alone.
pub proof fn lemma_second_chat_is_cached(
    account: OpenAIAccountView,
    prompt: Seq<char>,
    response: ChatCompletionResponseView,
    process_time: u64,
)
    requires
        distinct_keys(account.cache),
    ensures
        ({
            let first = account.fresh_chat(prompt, response, process_time);
            let after = account.recorded(QueryView::ChatQuery(first));
            &&& !first.from_cache
            &&& lookup(after.cache, chat_key(prompt)) == Some(QueryView::ChatQuery(first))
            &&& first.cached().from_cache
            &&& first.cached().response == response
            &&& after.served_from_cache().cache == after.cache
            &&& distinct_keys(after.cache)
        }),
{
    let first = account.fresh_chat(prompt, response, process_time);
    lemma_put(account.cache, chat_key(prompt), QueryView::ChatQuery(first));
}

/// Asking twice about a document gives the same answer, the second time from
/// the cache: what [`lemma_second_chat_is_cached`] says of plain prompts
/// holds of prompts about a document.
pub proof fn lemma_second_text_is_cached(
    account: OpenAIAccountView,
    pdf_title: Seq<char>,
    prompt: Seq<char>,
    response: ChatCompletionResponseView,
    process_time: u64,
)
    requires
        distinct_keys(account.cache),
    ensures
        ({
            let first = account.fresh_text(pdf_title, prompt, response, process_time);
            let after = account.recorded(QueryView::TextQuery(first));
            &&& !first.from_cache
            &&& lookup(after.cache, text_key(prompt, pdf_title)) == Some(
                QueryView::TextQuery(first),
            )
            &&& first.cached().from_cache
            &&& first.cached().response == response
            &&& after.served_from_cache().cache == after.cache
            &&& distinct_keys(after.cache)
        }),
{
    let first = account.fresh_text(pdf_title, prompt, response, process_time);
    lemma_put(account.cache, text_key(prompt, pdf_title), QueryView::TextQuery(first));
}

/// Asking twice about the essays gives the same answer, the second time from
/// the cache: what [`lemma_second_chat_is_cached`] says of plain prompts
/// holds of prompts about the essays.
pub proof fn lemma_second_meta_is_cached(
    account: OpenAIAccountView,
    prompt: Seq<char>,
    response: ChatCompletionResponseView,
    process_time: u64,
)
    requires
        distinct_keys(account.cache),
    ensures
        ({
            let first = account.fresh_meta(prompt, response, process_time);
            let after = account.recorded(QueryView::MetaQuery(first));
            &&& !first.from_cache
            &&& lookup(after.cache, meta_key(prompt)) == Some(QueryView::MetaQuery(first))
            &&& first.cached().from_cache
            &&& first.cached().response == response
            &&& after.served_from_cache().cache == after.cache
            &&& distinct_keys(after.cache)
        }),
{
    let first = account.fresh_meta(prompt, response, process_time);
    lemma_put(account.cache, meta_key(prompt), QueryView::MetaQuery(first));
}

/// The count of cache retrievals counts the hits and nothing else: a
/// completion found in the cache raises it by one and leaves the five
/// counters of usage as they are; a fresh completion leaves it as it is.
pub proof fn lemma_retrievals_count_hits(account: OpenAIAccountView, fresh: QueryView)
    ensures
        account.served_from_cache().bill.cache_retrievals == account.bill.cache_retrievals + 1,
        account.served_from_cache().bill.cost == account.bill.cost,
        account.served_from_cache().bill.prompt_tokens == account.bill.prompt_tokens,
        account.served_from_cache().bill.completion_tokens == account.bill.completion_tokens,
        account.served_from_cache().bill.total_tokens == account.bill.total_tokens,
        account.served_from_cache().bill.query_count == account.bill.query_count,
        account.recorded(fresh).bill.cache_retrievals == account.bill.cache_retrievals,
        account.recorded(fresh).bill.query_count == account.bill.query_count + 1,
{
}

/// The files follow the account: if the cache's mirror holds the entries,
/// then once the caller has carried out what a recording or a retrieval owes,
/// the cache's mirror holds the entries again and the bill's mirror holds the
/// bill; the graveyard has grown by what the recording overwrote and has lost
/// nothing.
pub proof fn lemma_files_follow_the_account(disk: Disk, account: OpenAIAccountView, fresh: QueryView)
    requires
        disk.cache == account.cache,
    ensures
        ({
            let after = account.recorded(fresh);
            let written = disk.after_all(account.recording_effects(fresh), after.cache, after.bill);
            &&& written.cache == after.cache
            &&& written.bill == after.bill
            &&& written.graveyard == disk.graveyard + buried(account.recording_effects(fresh))
            &&& cache_rewrites(account.recording_effects(fresh)) == 1
        }),
        ({
            let after = account.served_from_cache();
            let written = disk.after_all(seq![EffectView::RewriteBill], after.cache, after.bill);
            &&& written.cache == after.cache
            &&& written.bill == after.bill
            &&& written.graveyard == disk.graveyard
        }),
{
    let op = CacheOp::Insert(fresh);
    let cached = op.effects(account.cache);
    let owed = account.recording_effects(fresh);
    let after = account.recorded(fresh);
    lemma_op_rewrites_once(account.cache, op);
    assert(owed.drop_last() =~= cached);
    assert(owed[owed.len() - 1] == EffectView::RewriteBill);
    if owed.contains(EffectView::ClearGraveyard) {
        let i = choose|i: int| 0 <= i < owed.len() && owed[i] == EffectView::ClearGraveyard;
        assert(cached[i] == EffectView::ClearGraveyard);
    }
    disk.lemma_after_all(owed, after.cache, after.bill);

    let hit = seq![EffectView::RewriteBill];
    let served = account.served_from_cache();
    assert(hit.drop_last() =~= Seq::<EffectView>::empty());
    assert(hit[0] == EffectView::RewriteBill);
    reveal_with_fuel(cache_rewrites, 2);
    reveal_with_fuel(buried, 2);
    disk.lemma_after_all(hit, served.cache, served.bill);
    assert(disk.graveyard + buried(hit) =~= disk.graveyard);
}

} // verus!

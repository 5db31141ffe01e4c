//! Cache-consistency and cost-accounting core of a chat-completion client.
//!
//! The crate holds the data model (queries, cache, bill, store rows) and the
//! rules that decide when a request is served from the cache, what is written
//! to the durable mirrors, and how usage is added to the bill. It performs no
//! input or output itself: every operation that must reach a file returns the
//! [`models::effects::Effect`]s that its caller has to carry out.

pub mod constants;
pub mod models;

pub use crate::models::client::account::{OpenAIAccount, Opts};
pub use crate::models::queries::chat_query::Cacheable;
pub use crate::models::queries::{ChatQuery, MetaQuery, TextQuery};
pub use crate::models::{GptModel, Query};

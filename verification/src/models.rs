pub mod bill;
pub mod cache;
pub mod client;
pub mod effects;
pub mod entries;
pub mod gpt_models;
pub mod hash;
pub mod queries;
pub mod query;
pub mod req_and_res;
pub mod request;
pub mod response;
pub mod strings;
pub mod temperature;

pub use bill::Bill;
pub use gpt_models::GptModel;
pub use queries::{chat_query::ChatQuery, meta_query::MetaQuery, text_query::TextQuery};
pub use query::Query;
pub use req_and_res::ChatCompletionMessage;
pub use req_and_res::MessageRole;
pub use request::ChatCompletionRequest;
pub use response::ChatCompletionResponse;
pub use temperature::Temperature;

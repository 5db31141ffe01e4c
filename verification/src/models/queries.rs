pub mod chat_query;
pub mod meta_query;
pub mod text_query;

pub use chat_query::ChatQuery;
pub use meta_query::MetaQuery;
pub use text_query::TextQuery;

pub mod account;
pub mod completion;
pub mod database;

//! The decisions behind the command-line commands; the prompts and output are the
//! application's.
pub mod chat;
pub mod mode;
pub mod provider;
pub mod proxy;
pub mod setup;

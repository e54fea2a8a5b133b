//! An interactive ledger shell: a shell-style tokenizer, a command registry
//! with dispatch and error classification, a line editor driven by key
//! presses, and an input history with arrow-key paging.

pub mod text;
pub mod tokenizer;
pub mod history;
pub mod ledger;
pub mod cmd;
pub mod editor;
pub mod registry;
pub mod runner;
pub mod store;

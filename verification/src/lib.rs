//! Verified core of a C-drive folder migration tool: path rules, manifests,
//! the migration journal state machines and the migration archive index.
pub mod trusted;
pub mod text;
pub mod order;
pub mod search;
pub mod journal;
pub mod engine;
pub mod history;
pub mod scanner;
pub mod win_util;
pub mod commands;

//! An embedded expression language for per-chat message filters and typed
//! configuration values: the value system, the operator catalog, the
//! variable environment, the evaluator and the typed assignment protocol,
//! and on top of them what a chat does with the commands and messages that
//! it receives.

pub mod chat;
pub mod command;
pub mod error;
pub mod evaluation;
pub mod laws;
pub mod message;
pub mod parse_error;
pub mod pattern;
pub mod session;
pub mod text;
pub mod tree;
pub mod typed;
pub mod value;
pub mod variables;

//! Tools: their descriptions, the registry that dispatches calls by name, and
//! the builtin tools' parameter rules and results.

pub mod types;
pub mod manager;
pub mod builtin;

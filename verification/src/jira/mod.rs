//! Jira: its settings, its requests and what is read from its replies.

pub mod client;
pub mod config;
pub mod formatting;
pub mod laws;
pub mod models;
pub mod tools;

//! What Jira and Confluence have in common: credentials, errors and HTTP.

pub mod auth;
pub mod error;
pub mod http;
pub mod url;

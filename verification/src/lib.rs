//! The verified core of an MCP server for Jira: which tools may be seen and called, the
//! requests that they make, and what is read from the replies.

pub mod atlassian;
pub mod config;
pub mod context;
pub mod jira;
pub mod json;
pub mod json_codec;
pub mod lists;
pub mod mcp;
pub mod mcp_errors;
pub mod outcome;
pub mod string_set;
pub mod text;
pub mod tool_registry;

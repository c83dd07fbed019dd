//! The assistant's tools: argument records, bookkeeping and result texts.

pub mod agent;
pub mod ask_user;
pub mod brief;
pub mod config;
pub mod lsp;
pub mod mcp_tools;
pub mod tasks;
pub mod task_tools;
pub mod notebook;
pub mod sleep;
pub mod tool_search;
pub mod bash;
pub mod web_fetch;
pub mod web_search;
pub mod file;
pub mod file_ops;

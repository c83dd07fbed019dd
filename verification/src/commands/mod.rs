//! Slash commands typed at the prompt.

pub mod advisor;
pub mod commit;
pub mod conversation;
pub mod mcp;
pub mod shell;

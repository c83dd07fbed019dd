//! File tools: read, write, edit, find by pattern, search contents.

pub mod read;
pub mod write;
pub mod edit;
pub mod glob;
pub mod grep;

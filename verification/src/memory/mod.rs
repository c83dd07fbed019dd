//! Memory files: their metadata, the manifest of recent ones, and how the
//! ones picked for a query are shown.

pub mod models;
pub mod scanner;
pub mod retriever;

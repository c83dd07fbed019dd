//! Core logic of a terminal coding assistant: command handling, tool
//! output formatting, task bookkeeping, memory manifests, diagnostics
//! tracking and rate-limit header interpretation.

pub mod text;
pub mod tools;
pub mod api;
pub mod commands;
pub mod json;
pub mod mcp;
pub mod services;
pub mod memory;
pub mod ui;

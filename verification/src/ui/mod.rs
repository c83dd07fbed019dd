//! The terminal interface's state and decisions: the conversation shown,
//! what agent events and key presses do to it, how a typed line is routed,
//! and where boxes are painted.

pub mod app;
pub mod router;
pub mod layout;

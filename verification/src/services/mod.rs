//! Services that watch the session: rate limits, costs and code diagnostics.

pub mod claude_limits;
pub mod diagnostic;
pub mod cost_tracker;

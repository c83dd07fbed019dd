//! The pause tool: waits a bounded time.

use vstd::prelude::*;
use crate::text::{decimal_seq, u64_to_string};

verus! {

/// Arguments of the pause tool.
pub struct SleepArgs {
    pub duration_ms: u64,
}

/// Longest pause, in milliseconds.
pub const MAX_SLEEP_MS: u64 = 60000;

/// Schema of the pause tool's arguments (JSON text).
pub const SLEEP_SCHEMA: &'static str = "{\"type\":\"object\",\"properties\":{\"duration_ms\":{\"type\":\"integer\",\"description\":\"The number of milliseconds to sleep (e.g. 5000 for 5 seconds)\"}},\"required\":[\"duration_ms\"]}";

/// The reply after pausing `ms` milliseconds.
pub open spec fn sleep_reply(ms: nat) -> Seq<char> {
    "Finished sleeping for "@ + decimal_seq(ms) + " milliseconds."@
}

/// Pauses the agent for a while.
pub struct SleepTool;

impl SleepTool {
    pub fn new() -> Self {
        SleepTool
    }

    pub fn name(&self) -> (r: &'static str)
        ensures
            r@ == "Sleep"@,
    {
        "Sleep"
    }

    pub fn description(&self) -> (r: &'static str)
        ensures
            r@ == "Pause agent execution for a specified duration. Use this to wait for background tasks, server startups, or external state changes without blocking system resources or the shell."@,
    {
        "Pause agent execution for a specified duration. Use this to wait for background tasks, server startups, or external state changes without blocking system resources or the shell."
    }

    pub fn input_schema(&self) -> (r: &'static str)
        ensures
            r@ == SLEEP_SCHEMA@,
    {
        SLEEP_SCHEMA
    }

    /// How long to pause: what was asked, but at most a minute.
    pub fn duration_for(&self, args: &SleepArgs) -> (r: u64)
        ensures
            r == (if args.duration_ms > MAX_SLEEP_MS { MAX_SLEEP_MS } else { args.duration_ms }),
    {
        if args.duration_ms > MAX_SLEEP_MS {
            MAX_SLEEP_MS
        } else {
            args.duration_ms
        }
    }

    /// The reply once the pause of `duration_ms` is over.
    pub fn finished_reply(&self, duration_ms: u64) -> (r: String)
        ensures
            r@ == sleep_reply(duration_ms as nat),
    {
        let mut s = String::from_str("Finished sleeping for ");
        s.append(u64_to_string(duration_ms).as_str());
        s.append(" milliseconds.");
        s
    }
}

} // verus!

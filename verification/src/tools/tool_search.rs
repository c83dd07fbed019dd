//! The tool finder: searches deferred tools or activates one by name.

use vstd::prelude::*;
use crate::text::{chars_of, slice_chars, starts_with_chars, starts_with_seq, string_of, str_starts_with, trim_chars, trim_seq};

verus! {

/// Arguments of the tool finder.
pub struct ToolSearchArgs {
    pub query: String,
    pub max_results: Option<usize>,
}

/// `s` with every leading repetition of `p` removed (`trim_start_matches`).
pub open spec fn strip_all_prefixes(s: Seq<char>, p: Seq<char>) -> Seq<char>
    decreases s.len(),
{
    if p.len() > 0 && starts_with_seq(s, p) {
        strip_all_prefixes(s.skip(p.len() as int), p)
    } else {
        s
    }
}

/// The reply to a query.
pub open spec fn tool_search_reply(query: Seq<char>) -> Seq<char> {
    if starts_with_seq(query, "select:"@) {
        "Successfully activated tool '"@ + trim_seq(strip_all_prefixes(query, "select:"@))
            + "'. It will be available for you to use in the next turn."@
    } else {
        "Search query '"@ + query
            + "' completed.\n\nFound matches:\n- 'GitCommit' (Deferred): Creates a git commit with changes.\n- 'DatabaseQuery' (Deferred): Executes SQL queries against the active connection.\n\nUse 'select:<tool_name>' in your next ToolSearch call to activate a specific tool."@
    }
}

/// Schema of the tool finder's arguments (JSON text).
pub const TOOL_SEARCH_SCHEMA: &'static str = "{\"type\":\"object\",\"properties\":{\"query\":{\"type\":\"string\",\"description\":\"Keywords to search for tool names and descriptions, or 'select:<tool_name>' to activate exactly one.\"},\"max_results\":{\"type\":\"integer\",\"description\":\"Maximum number of tools to return (default: 5)\"}},\"required\":[\"query\"]}";

/// `s` with every leading repetition of `p` removed.
pub fn strip_prefixes(s: &Vec<char>, p: &Vec<char>) -> (r: Vec<char>)
    ensures
        r@ == strip_all_prefixes(s@, p@),
{
    let mut i: usize = 0;
    assert(s@.skip(0) =~= s@);
    if p.len() == 0 {
        return slice_chars(s, 0, s.len());
    }
    loop
        invariant
            i <= s.len(),
            p.len() > 0,
            strip_all_prefixes(s@, p@) == strip_all_prefixes(s@.skip(i as int), p@),
        decreases s.len() - i,
    {
        let rest = slice_chars(s, i, s.len());
        assert(rest@ =~= s@.skip(i as int));
        if !starts_with_chars(&rest, p) {
            return rest;
        }
        assert(s@.skip(i as int).skip(p@.len() as int) =~= s@.skip(i + p.len()));
        i = i + p.len();
    }
}

/// Finds deferred tools, or activates one with `select:<name>`.
pub struct ToolSearchTool;

impl ToolSearchTool {
    pub fn new() -> Self {
        ToolSearchTool
    }

    pub fn name(&self) -> (r: &'static str)
        ensures
            r@ == "ToolSearch"@,
    {
        "ToolSearch"
    }

    pub fn description(&self) -> (r: &'static str)
        ensures
            r@ == "Search the global registry for available or deferred tools. Useful when you need a specific capability (e.g. database query, git operation) that isn't currently loaded in your context. You can use 'select:<tool_name>' to directly activate a tool."@,
    {
        "Search the global registry for available or deferred tools. Useful when you need a specific capability (e.g. database query, git operation) that isn't currently loaded in your context. You can use 'select:<tool_name>' to directly activate a tool."
    }

    pub fn input_schema(&self) -> (r: &'static str)
        ensures
            r@ == TOOL_SEARCH_SCHEMA@,
    {
        TOOL_SEARCH_SCHEMA
    }

    /// Activates the named tool, or lists the (simulated) matches.
    pub fn execute(&self, args: &ToolSearchArgs) -> (r: Result<String, String>)
        ensures
            r is Ok,
            r->Ok_0@ == tool_search_reply(args.query@),
    {
        if str_starts_with(args.query.as_str(), "select:") {
            let q = chars_of(args.query.as_str());
            let p = chars_of("select:");
            let name = string_of(&trim_chars(&strip_prefixes(&q, &p)));
            let mut s = String::from_str("Successfully activated tool '");
            s.append(name.as_str());
            s.append("'. It will be available for you to use in the next turn.");
            Ok(s)
        } else {
            let mut s = String::from_str("Search query '");
            s.append(args.query.as_str());
            s.append("' completed.\n\nFound matches:\n- 'GitCommit' (Deferred): Creates a git commit with changes.\n- 'DatabaseQuery' (Deferred): Executes SQL queries against the active connection.\n\nUse 'select:<tool_name>' in your next ToolSearch call to activate a specific tool.");
            Ok(s)
        }
    }
}

} // verus!

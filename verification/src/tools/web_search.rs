//! The web search tool (results are simulated).

use vstd::prelude::*;

verus! {

/// Arguments of the web search tool.
pub struct WebSearchArgs {
    pub query: String,
    pub allowed_domains: Option<Vec<String>>,
    pub blocked_domains: Option<Vec<String>>,
}

/// The reply to a search.
pub open spec fn search_reply(query: Seq<char>) -> Seq<char> {
    "Web search results for query: \""@ + query
        + "\"\n\n1. [Example Search Result 1](https://example.com/result-1)\n   This is a simulated search result for the query.\n\n2. [Example Search Result 2](https://example.com/result-2)\n   Web search is currently running in mock mode.\n\nREMINDER: You MUST include the sources above in your response to the user using markdown hyperlinks."@
}

/// Schema of the web search tool's arguments (JSON text).
pub const WEB_SEARCH_SCHEMA: &'static str = "{\"type\":\"object\",\"properties\":{\"query\":{\"type\":\"string\",\"description\":\"The search query to use\"},\"allowed_domains\":{\"type\":\"array\",\"items\":{\"type\":\"string\"},\"description\":\"Only include search results from these domains\"},\"blocked_domains\":{\"type\":\"array\",\"items\":{\"type\":\"string\"},\"description\":\"Never include search results from these domains\"}},\"required\":[\"query\"]}";

/// Searches the web.
pub struct WebSearchTool;

impl WebSearchTool {
    pub fn new() -> Self {
        WebSearchTool
    }

    pub fn name(&self) -> (r: &'static str)
        ensures
            r@ == "WebSearch"@,
    {
        "WebSearch"
    }

    pub fn description(&self) -> (r: &'static str)
        ensures
            r@ == "- Allows Assistant to search the web and use the results to inform responses\n- Provides up-to-date information for current events and recent data\n- Returns search result information formatted as search result blocks, including links as markdown hyperlinks\n- Use this tool for accessing information beyond Assistant's knowledge cutoff"@,
    {
        "- Allows Assistant to search the web and use the results to inform responses\n- Provides up-to-date information for current events and recent data\n- Returns search result information formatted as search result blocks, including links as markdown hyperlinks\n- Use this tool for accessing information beyond Assistant's knowledge cutoff"
    }

    pub fn input_schema(&self) -> (r: &'static str)
        ensures
            r@ == WEB_SEARCH_SCHEMA@,
    {
        WEB_SEARCH_SCHEMA
    }

    /// The (simulated) results for the query.
    pub fn execute(&self, args: &WebSearchArgs) -> (r: Result<String, String>)
        ensures
            r is Ok,
            r->Ok_0@ == search_reply(args.query@),
    {
        let mut s = String::from_str("Web search results for query: \"");
        s.append(args.query.as_str());
        s.append("\"\n\n1. [Example Search Result 1](https://example.com/result-1)\n   This is a simulated search result for the query.\n\n2. [Example Search Result 2](https://example.com/result-2)\n   Web search is currently running in mock mode.\n\nREMINDER: You MUST include the sources above in your response to the user using markdown hyperlinks.");
        Ok(s)
    }
}

} // verus!

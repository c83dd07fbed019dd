//! The page fetcher: what is shown of a fetched page.

use vstd::prelude::*;
use crate::text::{
    chars_of, chars_in_bytes, chars_in_bytes_exec, decimal_seq, lemma_chars_in_bytes_bound, slice_chars,
    string_of, u64_to_string, utf8_len, utf8_len_exceeds, utf8_width,
};

verus! {

/// Arguments of the page fetcher; the prompt is empty when none was given.
pub struct WebFetchArgs {
    pub url: String,
    pub prompt: String,
}

/// Longest page text, in bytes, shown in full.
pub const MAX_FETCH_BYTES: usize = 50000;

/// The `User-Agent` the fetcher sends.
pub const FETCH_USER_AGENT: &'static str = "Assistant Code Rust/1.0";

/// Schema of the page fetcher's arguments (JSON text).
pub const WEB_FETCH_SCHEMA: &'static str = "{\"type\":\"object\",\"properties\":{\"url\":{\"type\":\"string\",\"description\":\"The URL to fetch content from\"},\"prompt\":{\"type\":\"string\",\"description\":\"The prompt to run on the fetched content\"}},\"required\":[\"url\"]}";

/// The page text as shown: cut after `MAX_FETCH_BYTES` bytes with a note.
pub open spec fn shown_content(content: Seq<char>) -> Seq<char> {
    if utf8_len(content) > MAX_FETCH_BYTES {
        content.take(chars_in_bytes(content, MAX_FETCH_BYTES as int)->Some_0 as int)
            + "\n\n...(Content truncated due to length)..."@
    } else {
        content
    }
}

/// The reply for a fetched page.
pub open spec fn fetch_reply(content: Seq<char>, prompt: Seq<char>) -> Seq<char> {
    if prompt.len() == 0 {
        shown_content(content)
    } else {
        "Prompt applied: "@ + prompt + "\n\nContent:\n"@ + shown_content(content)
    }
}

/// A page too long to show can be cut at a character boundary.
pub open spec fn fetch_cut_ok(content: Seq<char>) -> bool {
    utf8_len(content) > MAX_FETCH_BYTES ==> chars_in_bytes(content, MAX_FETCH_BYTES as int) is Some
}

/// The error for a response whose status is not a success.
pub open spec fn http_error(code: nat, reason: Option<Seq<char>>) -> Seq<char> {
    "HTTP Error "@ + decimal_seq(code) + ": "@ + (match reason { Some(r) => r, None => "Unknown"@ })
}

/// Fetches web pages.
pub struct WebFetchTool;

impl WebFetchTool {
    pub fn new() -> Self {
        WebFetchTool
    }

    pub fn name(&self) -> (r: &'static str)
        ensures
            r@ == "WebFetch"@,
    {
        "WebFetch"
    }

    pub fn description(&self) -> (r: &'static str)
        ensures
            r@ == "Fetches the content of a URL and optionally applies a prompt to process it. \nIMPORTANT: WebFetch WILL FAIL for authenticated or private URLs. Before using this tool, check if the URL points to an authenticated service."@,
    {
        "Fetches the content of a URL and optionally applies a prompt to process it. \nIMPORTANT: WebFetch WILL FAIL for authenticated or private URLs. Before using this tool, check if the URL points to an authenticated service."
    }

    pub fn input_schema(&self) -> (r: &'static str)
        ensures
            r@ == WEB_FETCH_SCHEMA@,
    {
        WEB_FETCH_SCHEMA
    }

    /// The error when the request could not be sent.
    pub fn fetch_failure(&self, url: &str) -> (r: String)
        ensures
            r@ == "Failed to fetch URL: "@ + url@,
    {
        crate::text::concat("Failed to fetch URL: ", url)
    }

    /// The error for status `code` with its reason phrase, if known.
    pub fn status_error(&self, code: u16, reason: Option<&str>) -> (r: String)
        ensures
            r@ == http_error(code as nat, match reason { Some(t) => Some(t@), None => None }),
    {
        let mut s = String::from_str("HTTP Error ");
        s.append(u64_to_string(code as u64).as_str());
        s.append(": ");
        match reason {
            Some(t) => s.append(t),
            None => s.append("Unknown"),
        }
        s
    }

    /// Whether `content` can be shown: a too-long page must be cut at a
    /// character boundary.
    pub fn can_show(&self, content: &str) -> (r: bool)
        ensures
            r == fetch_cut_ok(content@),
    {
        let v = chars_of(content);
        if utf8_len_exceeds(&v, MAX_FETCH_BYTES) {
            chars_in_bytes_exec(&v, MAX_FETCH_BYTES).is_some()
        } else {
            true
        }
    }

    /// The reply for the fetched `content`, with the prompt when one was given.
    pub fn reply(&self, content: &str, prompt: &str) -> (r: String)
        requires
            fetch_cut_ok(content@),
        ensures
            r@ == fetch_reply(content@, prompt@),
    {
        let v = chars_of(content);
        let shown = if utf8_len_exceeds(&v, MAX_FETCH_BYTES) {
            let n = match chars_in_bytes_exec(&v, MAX_FETCH_BYTES) {
                Some(n) => n,
                None => v.len(),
            };
            let mut t = string_of(&slice_chars(&v, 0, n));
            t.append("\n\n...(Content truncated due to length)...");
            assert(v@.subrange(0, n as int) =~= v@.take(n as int));
            t
        } else {
            String::from_str(content)
        };
        if prompt.is_empty() {
            shown
        } else {
            let mut s = String::from_str("Prompt applied: ");
            s.append(prompt);
            s.append("\n\nContent:\n");
            s.append(shown.as_str());
            s
        }
    }
}

/// The characters that fill exactly `k` bytes are `k` bytes long.
proof fn lemma_cut_fills(content: Seq<char>, k: int)
    requires
        chars_in_bytes(content, k) is Some,
    ensures
        chars_in_bytes(content, k)->Some_0 <= content.len(),
        utf8_len(content.take(chars_in_bytes(content, k)->Some_0 as int)) == k,
    decreases content.len(),
{
    lemma_chars_in_bytes_bound(content, k);
    let n = chars_in_bytes(content, k)->Some_0;
    if k == 0 {
        assert(content.take(0) =~= Seq::<char>::empty());
    } else {
        let rest = content.drop_first();
        let k2 = k - utf8_width(content[0]);
        lemma_cut_fills(rest, k2);
        let t = content.take(n as int);
        assert(t.len() > 0);
        assert(t.drop_first() =~= rest.take(n - 1));
        assert(t[0] == content[0]);
    }
}

/// The page is shown the same with or without a prompt: a prompt only adds
/// its heading in front. A page of at most `MAX_FETCH_BYTES` bytes is shown
/// whole; a longer one is cut to a proper beginning of exactly
/// `MAX_FETCH_BYTES` bytes, followed by the truncation note.
pub proof fn law_fetch_reply_cut(content: Seq<char>, prompt: Seq<char>)
    requires
        fetch_cut_ok(content),
    ensures
        prompt.len() > 0 ==> fetch_reply(content, prompt)
            == "Prompt applied: "@ + prompt + "\n\nContent:\n"@ + fetch_reply(content, Seq::empty()),
        utf8_len(content) <= MAX_FETCH_BYTES ==> fetch_reply(content, Seq::empty()) == content,
        utf8_len(content) > MAX_FETCH_BYTES ==> exists|n: int|
            0 <= n < content.len()
            && utf8_len(content.take(n)) == MAX_FETCH_BYTES
            && fetch_reply(content, Seq::empty())
                == content.take(n) + "\n\n...(Content truncated due to length)..."@,
{
    if utf8_len(content) > MAX_FETCH_BYTES {
        lemma_cut_fills(content, MAX_FETCH_BYTES as int);
        let n = chars_in_bytes(content, MAX_FETCH_BYTES as int)->Some_0 as int;
        if n == content.len() {
            assert(content.take(n) =~= content);
        }
        assert(0 <= n < content.len() && utf8_len(content.take(n)) == MAX_FETCH_BYTES);
    }
}

} // verus!

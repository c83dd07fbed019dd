//! Picking the memories relevant to a query: the side query put to the
//! model, the file paths read from its reply, and how each memory is shown.

use vstd::prelude::*;
use super::scanner::MemoryScanner;
use crate::api::{Client, ContentBlock, ContentBlockView};
use crate::text::{
    chars_of, contains_seq, i64_to_string, seqs_of, signed_decimal_seq, split_chars, split_seq,
    str_contains, string_of, trim_chars, trim_seq, u64_to_string, decimal_seq,
};

verus! {

/// The instructions of the side query.
pub const RETRIEVAL_SYSTEM_PROMPT: &'static str = "You are a context retrieval assistant. Your job is to read the provided manifest of memory files and select up to 5 file paths that are absolutely critical for answering the user's query. Return ONLY the file paths, separated by commas, with no other text.";

/// The model asked to pick memories.
pub const RETRIEVAL_MODEL: &'static str = "assistant-3-5-sonnet-20241022";

/// Token budget of the side query's answer.
pub const RETRIEVAL_MAX_TOKENS: u32 = 1024;

/// The question put to the model: the query, the manifest and how many to pick.
pub open spec fn retrieval_prompt(user_query: Seq<char>, manifest: Seq<char>, max_files: nat) -> Seq<char> {
    "User Query:\n"@ + user_query + "\n\nMemory Manifest:\n"@ + manifest + "\n\nSelect up to "@
        + decimal_seq(max_files) + " relevant memory files."@
}

/// The parts that are left non-empty after trimming, in order.
pub open spec fn nonempty_trimmed(parts: Seq<Seq<char>>) -> Seq<Seq<char>>
    decreases parts.len(),
{
    if parts.len() == 0 {
        Seq::empty()
    } else {
        let t = trim_seq(parts.last());
        nonempty_trimmed(parts.drop_last()) + (if t.len() > 0 { seq![t] } else { Seq::empty() })
    }
}

/// The paths named in one text of the reply: comma-separated, trimmed,
/// empty ones skipped, at most `max_files` of them.
pub open spec fn paths_in_text(text: Seq<char>, max_files: nat) -> Seq<Seq<char>> {
    let p = nonempty_trimmed(split_seq(text, ','));
    if p.len() > max_files { p.take(max_files as int) } else { p }
}

proof fn lemma_nonempty_trimmed(parts: Seq<Seq<char>>)
    ensures
        forall|i: int| 0 <= i < nonempty_trimmed(parts).len() ==> #[trigger] nonempty_trimmed(parts)[i].len() > 0,
    decreases parts.len(),
{
    if parts.len() > 0 {
        lemma_nonempty_trimmed(parts.drop_last());
        let pre = nonempty_trimmed(parts.drop_last());
        let t = trim_seq(parts.last());
        let tail: Seq<Seq<char>> = if t.len() > 0 { seq![t] } else { Seq::empty() };
        assert(nonempty_trimmed(parts) == pre + tail);
        assert forall|i: int| 0 <= i < (pre + tail).len() implies #[trigger] (pre + tail)[i].len() > 0 by {
            if i < pre.len() {
                assert((pre + tail)[i] == pre[i]);
            }
        }
    }
}

/// The paths named in a reply, text block by text block, before any limit.
pub open spec fn all_paths_in_reply(blocks: Seq<ContentBlockView>) -> Seq<Seq<char>>
    decreases blocks.len(),
{
    if blocks.len() == 0 {
        Seq::empty()
    } else {
        all_paths_in_reply(blocks.drop_last()) + match blocks.last() {
            ContentBlockView::Text { text } => nonempty_trimmed(split_seq(text, ',')),
        }
    }
}

/// The first `max_files` paths named in a reply, over all its text blocks.
pub open spec fn paths_in_reply(blocks: Seq<ContentBlockView>, max_files: nat) -> Seq<Seq<char>> {
    let p = all_paths_in_reply(blocks);
    if p.len() > max_files { p.take(max_files as int) } else { p }
}

proof fn lemma_reply_paths_nonempty(blocks: Seq<ContentBlockView>)
    ensures
        forall|i: int| 0 <= i < all_paths_in_reply(blocks).len() ==> #[trigger] all_paths_in_reply(blocks)[i].len() > 0,
    decreases blocks.len(),
{
    if blocks.len() > 0 {
        lemma_reply_paths_nonempty(blocks.drop_last());
        let pre = all_paths_in_reply(blocks.drop_last());
        match blocks.last() {
            ContentBlockView::Text { text } => {
                let tail = nonempty_trimmed(split_seq(text, ','));
                lemma_nonempty_trimmed(split_seq(text, ','));
                assert(all_paths_in_reply(blocks) == pre + tail);
                assert forall|i: int| 0 <= i < (pre + tail).len() implies #[trigger] (pre + tail)[i].len() > 0 by {
                    if i < pre.len() {
                        assert((pre + tail)[i] == pre[i]);
                    } else {
                        assert((pre + tail)[i] == tail[i - pre.len()]);
                    }
                }
            },
        }
    }
}

/// At most `max_files` paths are read from a whole reply, however many text
/// blocks it has, none of them empty; they are the first paths it names.
pub proof fn law_paths_limited(blocks: Seq<ContentBlockView>, max_files: nat)
    ensures
        paths_in_reply(blocks, max_files).len() <= max_files,
        forall|i: int| 0 <= i < paths_in_reply(blocks, max_files).len() ==> #[trigger] paths_in_reply(blocks, max_files)[i].len() > 0,
        paths_in_reply(blocks, max_files) == all_paths_in_reply(blocks).take(paths_in_reply(blocks, max_files).len() as int),
{
    lemma_reply_paths_nonempty(blocks);
    let p = all_paths_in_reply(blocks);
    assert forall|i: int| 0 <= i < paths_in_reply(blocks, max_files).len() implies #[trigger] paths_in_reply(blocks, max_files)[i].len() > 0 by {
        assert(paths_in_reply(blocks, max_files)[i] == p[i]);
    }
    if p.len() <= max_files {
        assert(p.take(p.len() as int) =~= p);
    }
}

/// How one picked memory is shown: its path, its content, and a reminder
/// when it is more than a day old.
pub open spec fn memory_entry(path: Seq<char>, content: Seq<char>, age_days: Option<int>) -> Seq<char> {
    "--- Memory: "@ + path + " ---\n"@ + content + (match age_days {
        Some(d) if d > 1 => "\n<system-reminder>\nThis memory is "@ + signed_decimal_seq(d)
            + " days old. Memories are point-in-time observations, not live state... Verify against current code before asserting as fact.\n</system-reminder>"@,
        _ => Seq::empty(),
    }) + "\n"@
}

/// The paths named in `text`, as `paths_in_text` describes.
pub fn paths_from_text(text: &str, max_files: usize) -> (r: Vec<String>)
    ensures
        r.deep_view() == paths_in_text(text@, max_files as nat),
{
    let mut r = named_paths(text);
    if r.len() > max_files {
        r.truncate(max_files);
        assert(r.deep_view() =~= nonempty_trimmed(split_seq(text@, ',')).take(max_files as int));
    }
    r
}

/// Every path named in `text`: its comma-separated parts, trimmed, without
/// the empty ones.
fn named_paths(text: &str) -> (r: Vec<String>)
    ensures
        r.deep_view() == nonempty_trimmed(split_seq(text@, ',')),
{
    let v = chars_of(text);
    let parts = split_chars(&v, ',');
    let ghost pv = seqs_of(parts@);
    let mut r: Vec<String> = Vec::new();
    let mut i: usize = 0;
    while i < parts.len()
        invariant
            i <= parts.len(),
            pv == seqs_of(parts@),
            pv == split_seq(v@, ','),
            v@ == text@,
            r.deep_view() == nonempty_trimmed(pv.take(i as int)),
        decreases parts.len() - i,
    {
        assert(pv.take(i + 1).drop_last() =~= pv.take(i as int));
        assert(pv.take(i + 1).last() == parts@[i as int]@);
        let t = trim_chars(&parts[i]);
        if t.len() > 0 {
            let s = string_of(&t);
            let ghost before = r.deep_view();
            r.push(s);
            assert(r.deep_view() =~= before + seq![s@]);
        } else {
            assert(nonempty_trimmed(pv.take(i + 1)) =~= nonempty_trimmed(pv.take(i as int)));
        }
        i = i + 1;
    }
    assert(pv.take(parts.len() as int) =~= pv);
    r
}

/// The reminder line shown after an old memory's content.
fn stale_reminder(days: i64) -> (r: String)
    ensures
        r@ == "\n<system-reminder>\nThis memory is "@ + signed_decimal_seq(days as int)
            + " days old. Memories are point-in-time observations, not live state... Verify against current code before asserting as fact.\n</system-reminder>"@,
{
    let mut s = String::from_str("\n<system-reminder>\nThis memory is ");
    s.append(i64_to_string(days).as_str());
    s.append(" days old. Memories are point-in-time observations, not live state... Verify against current code before asserting as fact.\n</system-reminder>");
    s
}

/// Shows one picked memory; `age_days` is its age when it could be read.
pub fn format_memory_entry(path: &str, content: &str, age_days: Option<i64>) -> (r: String)
    ensures
        r@ == memory_entry(path@, content@, match age_days { Some(d) => Some(d as int), None => None }),
{
    let mut s = String::from_str("--- Memory: ");
    s.append(path);
    s.append(" ---\n");
    s.append(content);
    match age_days {
        Some(d) => {
            if d > 1 {
                s.append(stale_reminder(d).as_str());
            }
        },
        None => {},
    }
    s.append("\n");
    s
}

/// Finds the memories relevant to a query with a side query to the model.
pub struct MemoryRetriever {
    pub scanner: MemoryScanner,
    pub api_client: Client,
}

impl MemoryRetriever {
    /// A retriever of the memories under `base_dir` that asks the model through `api_client`.
    pub fn new(base_dir: String, api_client: Client) -> (r: MemoryRetriever)
        ensures
            r.scanner.base_dir@ == base_dir@,
            r.api_client == api_client,
    {
        MemoryRetriever { scanner: MemoryScanner::new(base_dir), api_client }
    }

    /// The side query's question for `user_query` given the manifest of
    /// recent memories; none when the manifest says there are no memories.
    pub fn side_query_prompt(&self, user_query: &str, manifest: &str, max_files: usize) -> (r: Option<String>)
        ensures
            contains_seq(manifest@, "No memories found"@) ==> r is None,
            !contains_seq(manifest@, "No memories found"@) ==> r is Some
                && r->Some_0@ == retrieval_prompt(user_query@, manifest@, max_files as nat),
    {
        if str_contains(manifest, "No memories found") {
            return None;
        }
        let mut s = String::from_str("User Query:\n");
        s.append(user_query);
        s.append("\n\nMemory Manifest:\n");
        s.append(manifest);
        s.append("\n\nSelect up to ");
        s.append(u64_to_string(max_files as u64).as_str());
        s.append(" relevant memory files.");
        Some(s)
    }

    /// The first `max_files` paths named in the model's reply, over all its
    /// text blocks.
    pub fn paths_from_reply(&self, blocks: &Vec<ContentBlock>, max_files: usize) -> (r: Vec<String>)
        ensures
            r.deep_view() == paths_in_reply(blocks@.map_values(|b: ContentBlock| b@), max_files as nat),
    {
        let ghost bv = blocks@.map_values(|b: ContentBlock| b@);
        let mut r: Vec<String> = Vec::new();
        let mut i: usize = 0;
        while i < blocks.len()
            invariant
                i <= blocks.len(),
                bv == blocks@.map_values(|b: ContentBlock| b@),
                r.deep_view() == all_paths_in_reply(bv.take(i as int)),
            decreases blocks.len() - i,
        {
            assert(bv.take(i + 1).drop_last() =~= bv.take(i as int));
            assert(bv.take(i + 1).last() == blocks@[i as int]@);
            match &blocks[i] {
                ContentBlock::Text { text } => {
                    let mut found = named_paths(text.as_str());
                    let ghost before = r.deep_view();
                    let ghost fv = found.deep_view();
                    r.append(&mut found);
                    assert(r.deep_view() =~= before + fv);
                },
            }
            i = i + 1;
        }
        assert(bv.take(blocks.len() as int) =~= bv);
        if r.len() > max_files {
            let ghost all = r.deep_view();
            r.truncate(max_files);
            assert(r.deep_view() =~= all.take(max_files as int));
        }
        r
    }
}

} // verus!

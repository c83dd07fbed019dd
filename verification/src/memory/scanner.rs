//! Finding the header of a memory file, choosing the most recent memories,
//! and the manifest that lists them.

use vstd::prelude::*;
use super::models::{
    MemoryMetadata, MemoryType, Timestamp, earlier, manifest_line,
};

verus! {

/// A character of the Unicode `White_Space` property, which `\s` matches.
pub open spec fn is_white_space(c: char) -> bool {
    let n = c as int;
    ||| 9 <= n <= 13
    ||| n == 32
    ||| n == 0x85
    ||| n == 0xA0
    ||| n == 0x1680
    ||| 0x2000 <= n <= 0x200A
    ||| n == 0x2028
    ||| n == 0x2029
    ||| n == 0x202F
    ||| n == 0x205F
    ||| n == 0x3000
}

/// The content opens with `---`, then `k` white-space characters, then a
/// line feed: the header's body would start at `4 + k`.
pub open spec fn header_opening(content: Seq<char>, k: int) -> bool {
    &&& 0 <= k
    &&& 4 + k <= content.len()
    &&& content.subrange(0, 3) == "---"@
    &&& forall|i: int| 3 <= i < 3 + k ==> is_white_space(#[trigger] content[i])
    &&& content[3 + k] == '\n'
}

/// A line feed followed by `---` starts at `p`.
pub open spec fn header_closing(content: Seq<char>, p: int) -> bool {
    0 <= p && p + 4 <= content.len() && content.subrange(p, p + 4) == "\n---"@
}

/// An opening of `k` white-space characters that a closing follows.
pub open spec fn header_candidate(content: Seq<char>, k: int) -> bool {
    header_opening(content, k) && exists|p: int| p >= 4 + k && #[trigger] header_closing(content, p)
}

/// What the pattern `(?s)^---\s*\n(.*?)\n---` captures: the greedy `\s*`
/// takes the longest opening that a closing follows, and the lazy body then
/// ends at the first closing after it; `None` when no opening is followed by
/// a closing.
#[verifier::opaque]
pub open spec fn frontmatter_capture(content: Seq<char>) -> Option<Seq<char>> {
    if exists|k: int| #[trigger] header_candidate(content, k) {
        let k = choose|k: int| header_candidate(content, k)
            && forall|k2: int| k2 > k ==> !#[trigger] header_candidate(content, k2);
        let p = choose|p: int| p >= 4 + k && header_closing(content, p)
            && forall|q: int| 4 + k <= q < p ==> !#[trigger] header_closing(content, q);
        Some(content.subrange(4 + k, p))
    } else {
        None
    }
}

/// Finds the header block of a memory file with the `regex` crate, using the
/// pattern `(?s)^---\s*\n(.*?)\n---` and returning its first group.
/// Claimed: the result is `frontmatter_capture` of the content, which
/// restates the crate's leftmost-first matching for this one pattern (`\s`
/// is Unicode white space, `.` with `(?s)` matches every character).
#[verifier::external_body]
fn frontmatter_section(content: &str) -> (r: Option<String>)
    ensures
        crate::text::opt_view(r) == frontmatter_capture(content@),
{
    let re = match regex::Regex::new(r"(?s)^---\s*\n(.*?)\n---") {
        Ok(re) => re,
        Err(_) => return None,
    };
    match re.captures(content) {
        Some(c) => match c.get(1) {
            Some(m) => Some(m.as_str().to_string()),
            None => None,
        },
        None => None,
    }
}

/// The files, among `contents`, that open with a header block: each as its
/// position in `contents` and its header text, in the order of `contents`.
pub open spec fn headed_files(contents: Seq<Seq<char>>) -> Seq<(int, Seq<char>)>
    decreases contents.len(),
{
    if contents.len() == 0 {
        Seq::empty()
    } else {
        let earlier_files = headed_files(contents.drop_last());
        match frontmatter_capture(contents.last()) {
            Some(header) => earlier_files.push(((contents.len() - 1) as int, header)),
            None => earlier_files,
        }
    }
}

/// The header blocks of the scanned memory files, given their contents in
/// the order they were found: the position and header of each file that has
/// one; the others are skipped.
pub fn memory_headers(contents: &Vec<String>) -> (r: Vec<(usize, String)>)
    ensures
        r@.map_values(|p: (usize, String)| (p.0 as int, p.1@))
            == headed_files(contents@.map_values(|s: String| s@)),
{
    let ghost texts = contents@.map_values(|s: String| s@);
    let mut found: Vec<(usize, String)> = Vec::new();
    let mut i: usize = 0;
    while i < contents.len()
        invariant
            i <= contents.len(),
            texts == contents@.map_values(|s: String| s@),
            found@.map_values(|p: (usize, String)| (p.0 as int, p.1@)) == headed_files(texts.take(i as int)),
        decreases contents.len() - i,
    {
        let ghost before = found@;
        assert(texts.take(i + 1).drop_last() =~= texts.take(i as int));
        match frontmatter_section(contents[i].as_str()) {
            Some(header) => {
                found.push((i, header));
                assert(found@.map_values(|p: (usize, String)| (p.0 as int, p.1@)) =~= before.map_values(
                    |p: (usize, String)| (p.0 as int, p.1@),
                ).push((i as int, found@[before.len() as int].1@)));
            },
            None => {},
        }
        i = i + 1;
    }
    assert(texts.take(contents.len() as int) =~= texts);
    found
}

/// Mathematical value of a memory's metadata.
pub struct MemoryMetadataView {
    pub path: Seq<char>,
    pub name: Seq<char>,
    pub description: Seq<char>,
    pub memory_type: MemoryType,
    pub modified_at: Timestamp,
}

impl View for MemoryMetadata {
    type V = MemoryMetadataView;

    open spec fn view(&self) -> MemoryMetadataView {
        MemoryMetadataView {
            path: self.path@,
            name: self.frontmatter.name@,
            description: self.frontmatter.description@,
            memory_type: self.frontmatter.memory_type,
            modified_at: self.modified_at,
        }
    }
}

/// Views of a list of memories.
pub open spec fn memory_views(v: Seq<MemoryMetadata>) -> Seq<MemoryMetadataView> {
    v.map_values(|m: MemoryMetadata| m@)
}

/// `x` placed into a newest-first list after every memory that is not older.
pub open spec fn insert_newest_first(s: Seq<MemoryMetadataView>, x: MemoryMetadataView) -> Seq<MemoryMetadataView>
    decreases s.len(),
{
    if s.len() == 0 {
        seq![x]
    } else if earlier(s[0].modified_at, x.modified_at) {
        seq![x] + s
    } else {
        seq![s[0]] + insert_newest_first(s.drop_first(), x)
    }
}

/// The memories ordered newest first; memories of the same time keep their
/// order (a stable sort).
pub open spec fn newest_first(s: Seq<MemoryMetadataView>) -> Seq<MemoryMetadataView>
    decreases s.len(),
{
    if s.len() == 0 {
        Seq::empty()
    } else {
        insert_newest_first(newest_first(s.drop_last()), s.last())
    }
}

/// The `max_files` most recent memories, newest first.
pub open spec fn most_recent(s: Seq<MemoryMetadataView>, max_files: nat) -> Seq<MemoryMetadataView> {
    let sorted = newest_first(s);
    if sorted.len() > max_files { sorted.take(max_files as int) } else { sorted }
}

/// No memory is older than one after it.
pub open spec fn is_newest_first(s: Seq<MemoryMetadataView>) -> bool {
    forall|i: int, j: int| 0 <= i < j < s.len() ==> !earlier(s[i].modified_at, s[j].modified_at)
}

proof fn lemma_insert_at(s: Seq<MemoryMetadataView>, x: MemoryMetadataView, p: int)
    requires
        0 <= p <= s.len(),
        forall|k: int| 0 <= k < p ==> !earlier(#[trigger] s[k].modified_at, x.modified_at),
        p < s.len() ==> earlier(s[p].modified_at, x.modified_at),
    ensures
        insert_newest_first(s, x) == s.take(p) + seq![x] + s.skip(p),
    decreases p,
{
    if s.len() == 0 {
        assert(s.take(p) + seq![x] + s.skip(p) =~= seq![x]);
    } else if p == 0 {
        assert(s.take(0) + seq![x] + s.skip(0) =~= seq![x] + s);
    } else {
        let t = s.drop_first();
        assert forall|k: int| 0 <= k < p - 1 implies !earlier(#[trigger] t[k].modified_at, x.modified_at) by {
            assert(t[k] == s[k + 1]);
        }
        lemma_insert_at(t, x, p - 1);
        assert(seq![s[0]] + (t.take(p - 1) + seq![x] + t.skip(p - 1)) =~= s.take(p) + seq![x] + s.skip(p));
    }
}

proof fn lemma_insert_keeps_order(s: Seq<MemoryMetadataView>, x: MemoryMetadataView)
    requires
        is_newest_first(s),
    ensures
        is_newest_first(insert_newest_first(s, x)),
        insert_newest_first(s, x).len() == s.len() + 1,
        insert_newest_first(s, x).to_multiset() == s.to_multiset().insert(x),
    decreases s.len(),
{
    broadcast use vstd::seq_lib::group_to_multiset_ensures;
    if s.len() == 0 {
        assert(seq![x] =~= Seq::<MemoryMetadataView>::empty().push(x));
    } else if earlier(s[0].modified_at, x.modified_at) {
        let r = seq![x] + s;
        assert forall|i: int, j: int| 0 <= i < j < r.len() implies !earlier(r[i].modified_at, r[j].modified_at) by {
            if i > 0 {
                assert(r[i] == s[i - 1] && r[j] == s[j - 1]);
            } else {
                assert(r[j] == s[j - 1]);
                if j - 1 > 0 {
                    assert(!earlier(s[0].modified_at, s[j - 1].modified_at));
                }
            }
        }
        assert(r =~= s.insert(0, x));
    } else {
        let t = s.drop_first();
        assert(is_newest_first(t)) by {
            assert forall|i: int, j: int| 0 <= i < j < t.len() implies !earlier(t[i].modified_at, t[j].modified_at) by {
                assert(t[i] == s[i + 1] && t[j] == s[j + 1]);
            }
        }
        lemma_insert_keeps_order(t, x);
        let it = insert_newest_first(t, x);
        let r = seq![s[0]] + it;
        assert forall|i: int, j: int| 0 <= i < j < r.len() implies !earlier(r[i].modified_at, r[j].modified_at) by {
            if i > 0 {
                assert(r[i] == it[i - 1] && r[j] == it[j - 1]);
            } else {
                assert(r[j] == it[j - 1]);
                assert(it.to_multiset().count(it[j - 1]) > 0);
                assert(t.to_multiset().insert(x).count(it[j - 1]) > 0);
                if it[j - 1] != x {
                    assert(t.to_multiset().count(it[j - 1]) > 0);
                    assert(t.contains(it[j - 1]));
                    let k = choose|k: int| 0 <= k < t.len() && t[k] == it[j - 1];
                    assert(t[k] == s[k + 1]);
                }
            }
        }
        assert(s =~= seq![s[0]] + t);
        assert(s.to_multiset() == t.to_multiset().insert(s[0])) by {
            assert(s =~= t.insert(0, s[0]));
        }
        assert(r =~= it.insert(0, s[0]));
    }
}

/// Ordering newest first keeps every memory and orders them.
pub proof fn lemma_newest_first(s: Seq<MemoryMetadataView>)
    ensures
        is_newest_first(newest_first(s)),
        newest_first(s).len() == s.len(),
        newest_first(s).to_multiset() == s.to_multiset(),
    decreases s.len(),
{
    broadcast use vstd::seq_lib::group_to_multiset_ensures;
    if s.len() > 0 {
        lemma_newest_first(s.drop_last());
        lemma_insert_keeps_order(newest_first(s.drop_last()), s.last());
        assert(s =~= s.drop_last().push(s.last()));
    } else {
        assert(s.to_multiset() =~= vstd::multiset::Multiset::empty());
    }
}

/// The memories kept are the newest first, at most `max_files` of them, and
/// each is one of the memories found; when no more than `max_files` were
/// found, all of them are kept.
pub proof fn law_most_recent(s: Seq<MemoryMetadataView>, max_files: nat)
    ensures
        is_newest_first(most_recent(s, max_files)),
        most_recent(s, max_files).len() == (if s.len() > max_files { max_files } else { s.len() }),
        forall|i: int| 0 <= i < most_recent(s, max_files).len() ==> s.contains(#[trigger] most_recent(s, max_files)[i]),
        s.len() <= max_files ==> most_recent(s, max_files).to_multiset() == s.to_multiset(),
{
    broadcast use vstd::seq_lib::group_to_multiset_ensures;
    lemma_newest_first(s);
    let sorted = newest_first(s);
    let r = most_recent(s, max_files);
    assert forall|i: int| 0 <= i < r.len() implies s.contains(#[trigger] r[i]) by {
        assert(r[i] == sorted[i]);
        assert(sorted.to_multiset().count(sorted[i]) > 0);
        assert(s.to_multiset().count(sorted[i]) > 0);
    }
}

/// Keeps the `max_files` most recently modified memories, newest first;
/// memories modified at the same time keep their order.
pub fn select_recent(memories: Vec<MemoryMetadata>, max_files: usize) -> (r: Vec<MemoryMetadata>)
    ensures
        memory_views(r@) == most_recent(memory_views(memories@), max_files as nat),
{
    let ghost all = memory_views(memories@);
    let ghost items = memories@;
    let mut rest = memories;
    let mut sorted: Vec<MemoryMetadata> = Vec::new();
    let mut k: usize = 0;
    let n = rest.len();
    while k < n
        invariant
            k <= n,
            n == items.len(),
            all == memory_views(items),
            rest@ == items.skip(k as int),
            memory_views(sorted@) == newest_first(all.take(k as int)),
        decreases n - k,
    {
        let x = rest.remove(0);
        assert(x == items[k as int]);
        assert(rest@ =~= items.skip(k + 1));
        assert(all.take(k + 1).drop_last() =~= all.take(k as int));
        assert(all.take(k + 1).last() == x@);
        let ghost sv = memory_views(sorted@);
        let mut p: usize = 0;
        while p < sorted.len() && !(sorted[p].modified_at.secs < x.modified_at.secs
            || (sorted[p].modified_at.secs == x.modified_at.secs && sorted[p].modified_at.nanos < x.modified_at.nanos))
            invariant
                p <= sorted.len(),
                sv == memory_views(sorted@),
                forall|q: int| 0 <= q < p ==> !earlier(#[trigger] sv[q].modified_at, x.modified_at),
            decreases sorted.len() - p,
        {
            p = p + 1;
        }
        proof {
            lemma_insert_at(sv, x@, p as int);
        }
        let ghost xv = x@;
        sorted.insert(p, x);
        assert(memory_views(sorted@) =~= sv.take(p as int) + seq![xv] + sv.skip(p as int));
        k = k + 1;
    }
    assert(all.take(n as int) =~= all);
    if sorted.len() > max_files {
        sorted.truncate(max_files);
        assert(memory_views(sorted@) =~= newest_first(all).take(max_files as int));
    }
    sorted
}

/// Reply when there is no memory.
pub const NO_MEMORIES: &'static str = "No memories found.";

/// Heading of the manifest.
pub const MANIFEST_HEADING: &'static str = "Available Context & Memory Files:\n";

/// The manifest lines of the memories, one per line.
pub open spec fn manifest_lines(s: Seq<MemoryMetadataView>) -> Seq<char>
    decreases s.len(),
{
    if s.len() == 0 {
        Seq::empty()
    } else {
        manifest_lines(s.drop_last())
            + manifest_line(s.last().name, s.last().path, s.last().memory_type, s.last().description) + "\n"@
    }
}

/// The manifest of the memories.
pub open spec fn manifest_of(s: Seq<MemoryMetadataView>) -> Seq<char> {
    if s.len() == 0 { NO_MEMORIES@ } else { MANIFEST_HEADING@ + manifest_lines(s) }
}

/// Reads memory files under one directory.
pub struct MemoryScanner {
    pub base_dir: String,
}

impl MemoryScanner {
    /// A scanner of the memory files under `base_dir`.
    pub fn new(base_dir: String) -> (r: MemoryScanner)
        ensures
            r.base_dir@ == base_dir@,
    {
        MemoryScanner { base_dir }
    }

    /// The manifest that lists `memories` (as the scan found them), to be
    /// given to the side query.
    pub fn generate_manifest(&self, memories: &Vec<MemoryMetadata>) -> (r: Result<String, String>)
        ensures
            r is Ok,
            r->Ok_0@ == manifest_of(memory_views(memories@)),
    {
        if memories.len() == 0 {
            return Ok(String::from_str(NO_MEMORIES));
        }
        let ghost mv = memory_views(memories@);
        let mut s = String::from_str(MANIFEST_HEADING);
        let mut i: usize = 0;
        while i < memories.len()
            invariant
                i <= memories.len(),
                mv == memory_views(memories@),
                s@ == MANIFEST_HEADING@ + manifest_lines(mv.take(i as int)),
            decreases memories.len() - i,
        {
            assert(mv.take(i + 1).drop_last() =~= mv.take(i as int));
            assert(mv.take(i + 1).last() == memories@[i as int]@);
            let line = memories[i].to_manifest_line();
            s.append(line.as_str());
            s.append("\n");
            i = i + 1;
        }
        assert(mv.take(memories.len() as int) =~= mv);
        Ok(s)
    }
}

} // verus!

//! The file finder: the pattern it looks up and how matches are listed.

use vstd::prelude::*;
use crate::text::{concat, join_seq, join_strings, starts_with_seq, str_starts_with};

verus! {

/// Most paths listed.
pub const GLOB_LIMIT: usize = 100;

/// Note added when paths were left out.
pub const GLOB_TRUNCATED_NOTE: &'static str = "(Results are truncated. Consider using a more specific path or pattern.)";

/// Schema of the file finder's arguments (JSON text).
pub const GLOB_SCHEMA: &'static str = "{\"type\":\"object\",\"properties\":{\"pattern\":{\"type\":\"string\",\"description\":\"The glob pattern to match files against.\"},\"path\":{\"type\":\"string\",\"description\":\"The directory to search in. If not specified, the current working directory will be used. Must be a valid absolute directory path if provided.\"}},\"required\":[\"pattern\"]}";

/// The pattern looked up: the pattern under the search directory.
pub open spec fn glob_full_pattern(dir: Seq<char>, pattern: Seq<char>) -> Seq<char> {
    if starts_with_seq(pattern, "/"@) { dir + pattern } else { dir + "/"@ + pattern }
}

/// The listing of the matched paths.
pub open spec fn glob_listing(paths: Seq<Seq<char>>) -> Seq<char> {
    if paths.len() == 0 {
        "No files found"@
    } else if paths.len() > GLOB_LIMIT {
        join_seq(paths.take(GLOB_LIMIT as int).push(GLOB_TRUNCATED_NOTE@), "\n"@)
    } else {
        join_seq(paths, "\n"@)
    }
}

/// A matched path with its modification time (nanoseconds from the Unix
/// epoch), as a value.
pub open spec fn entry_views(v: Seq<(String, i128)>) -> Seq<(Seq<char>, int)> {
    v.map_values(|e: (String, i128)| (e.0@, e.1 as int))
}

/// `x` placed into a newest-first listing after every entry that is not older.
pub open spec fn insert_newest(s: Seq<(Seq<char>, int)>, x: (Seq<char>, int)) -> Seq<(Seq<char>, int)>
    decreases s.len(),
{
    if s.len() == 0 {
        seq![x]
    } else if s[0].1 < x.1 {
        seq![x] + s
    } else {
        seq![s[0]] + insert_newest(s.drop_first(), x)
    }
}

/// The entries ordered by modification time, most recent first; entries
/// with the same time keep the order in which they were matched (a stable
/// sort).
pub open spec fn by_newest(s: Seq<(Seq<char>, int)>) -> Seq<(Seq<char>, int)>
    decreases s.len(),
{
    if s.len() == 0 {
        Seq::empty()
    } else {
        insert_newest(by_newest(s.drop_last()), s.last())
    }
}

/// The matched paths in the order they are listed: most recently modified
/// first.
pub open spec fn listed_paths(entries: Seq<(Seq<char>, int)>) -> Seq<Seq<char>> {
    by_newest(entries).map_values(|e: (Seq<char>, int)| e.0)
}

proof fn lemma_insert_newest_at(s: Seq<(Seq<char>, int)>, x: (Seq<char>, int), p: int)
    requires
        0 <= p <= s.len(),
        forall|k: int| 0 <= k < p ==> !(#[trigger] s[k].1 < x.1),
        p < s.len() ==> s[p].1 < x.1,
    ensures
        insert_newest(s, x) == s.take(p) + seq![x] + s.skip(p),
    decreases p,
{
    if s.len() == 0 {
        assert(s.take(p) + seq![x] + s.skip(p) =~= seq![x]);
    } else if p == 0 {
        assert(s.take(0) + seq![x] + s.skip(0) =~= seq![x] + s);
    } else {
        let t = s.drop_first();
        assert forall|k: int| 0 <= k < p - 1 implies !(#[trigger] t[k].1 < x.1) by {
            assert(t[k] == s[k + 1]);
        }
        lemma_insert_newest_at(t, x, p - 1);
        assert(seq![s[0]] + (t.take(p - 1) + seq![x] + t.skip(p - 1)) =~= s.take(p) + seq![x] + s.skip(p));
    }
}

/// No entry is older than one after it.
pub open spec fn is_newest_first(s: Seq<(Seq<char>, int)>) -> bool {
    forall|i: int, j: int| 0 <= i < j < s.len() ==> s[j].1 <= s[i].1
}

proof fn lemma_insert_newest_keeps_order(s: Seq<(Seq<char>, int)>, x: (Seq<char>, int))
    requires
        is_newest_first(s),
    ensures
        is_newest_first(insert_newest(s, x)),
        insert_newest(s, x).to_multiset() == s.to_multiset().insert(x),
    decreases s.len(),
{
    broadcast use vstd::seq_lib::group_to_multiset_ensures;
    if s.len() == 0 {
        assert(seq![x] =~= Seq::<(Seq<char>, int)>::empty().push(x));
    } else if s[0].1 < x.1 {
        let r = seq![x] + s;
        assert forall|i: int, j: int| 0 <= i < j < r.len() implies r[j].1 <= r[i].1 by {
            if i > 0 {
                assert(r[i] == s[i - 1] && r[j] == s[j - 1]);
            } else {
                assert(r[j] == s[j - 1]);
                if j - 1 > 0 {
                    assert(s[j - 1].1 <= s[0].1);
                }
            }
        }
        assert(r =~= s.insert(0, x));
    } else {
        let t = s.drop_first();
        assert(is_newest_first(t)) by {
            assert forall|i: int, j: int| 0 <= i < j < t.len() implies t[j].1 <= t[i].1 by {
                assert(t[i] == s[i + 1] && t[j] == s[j + 1]);
            }
        }
        lemma_insert_newest_keeps_order(t, x);
        let it = insert_newest(t, x);
        let r = seq![s[0]] + it;
        assert forall|i: int, j: int| 0 <= i < j < r.len() implies r[j].1 <= r[i].1 by {
            if i > 0 {
                assert(r[i] == it[i - 1] && r[j] == it[j - 1]);
            } else {
                assert(r[j] == it[j - 1]);
                assert(it.to_multiset().count(it[j - 1]) > 0);
                assert(t.to_multiset().insert(x).count(it[j - 1]) > 0);
                if it[j - 1] != x {
                    assert(t.to_multiset().count(it[j - 1]) > 0);
                    assert(t.contains(it[j - 1]));
                    let k = choose|k: int| 0 <= k < t.len() && t[k] == it[j - 1];
                    assert(t[k] == s[k + 1]);
                }
            }
        }
        assert(s.to_multiset() == t.to_multiset().insert(s[0])) by {
            assert(s =~= t.insert(0, s[0]));
        }
        assert(r =~= it.insert(0, s[0]));
    }
}

/// The listing order is a sort by modification time: most recent first,
/// and every matched entry appears in it exactly as often as it was matched.
pub proof fn law_listing_newest_first(s: Seq<(Seq<char>, int)>)
    ensures
        is_newest_first(by_newest(s)),
        by_newest(s).to_multiset() == s.to_multiset(),
    decreases s.len(),
{
    broadcast use vstd::seq_lib::group_to_multiset_ensures;
    if s.len() > 0 {
        law_listing_newest_first(s.drop_last());
        lemma_insert_newest_keeps_order(by_newest(s.drop_last()), s.last());
        assert(s =~= s.drop_last().push(s.last()));
    } else {
        assert(s.to_multiset() =~= vstd::multiset::Multiset::empty());
    }
}

/// Orders the matched paths most recently modified first, keeping the match
/// order among paths modified at the same time.
pub fn newest_first_paths(entries: Vec<(String, i128)>) -> (r: Vec<String>)
    ensures
        r.deep_view() == listed_paths(entry_views(entries@)),
{
    let ghost all = entry_views(entries@);
    let ghost items = entries@;
    let mut rest = entries;
    let mut sorted: Vec<(String, i128)> = Vec::new();
    let mut k: usize = 0;
    let n = rest.len();
    while k < n
        invariant
            k <= n,
            n == items.len(),
            all == entry_views(items),
            rest@ == items.skip(k as int),
            entry_views(sorted@) == by_newest(all.take(k as int)),
        decreases n - k,
    {
        let x = rest.remove(0);
        assert(x == items[k as int]);
        assert(rest@ =~= items.skip(k + 1));
        assert(all.take(k + 1).drop_last() =~= all.take(k as int));
        assert(all.take(k + 1).last() == (x.0@, x.1 as int));
        let ghost sv = entry_views(sorted@);
        let mut p: usize = 0;
        while p < sorted.len() && !(sorted[p].1 < x.1)
            invariant
                p <= sorted.len(),
                sv == entry_views(sorted@),
                forall|q: int| 0 <= q < p ==> !(#[trigger] sv[q].1 < x.1),
            decreases sorted.len() - p,
        {
            p = p + 1;
        }
        let ghost xv = (x.0@, x.1 as int);
        proof {
            lemma_insert_newest_at(sv, xv, p as int);
        }
        sorted.insert(p, x);
        assert(entry_views(sorted@) =~= sv.take(p as int) + seq![xv] + sv.skip(p as int));
        k = k + 1;
    }
    assert(all.take(n as int) =~= all);
    let ghost sorted_v = entry_views(sorted@);
    let mut paths: Vec<String> = Vec::new();
    let mut i: usize = 0;
    while i < sorted.len()
        invariant
            i <= sorted.len(),
            sorted_v == entry_views(sorted@),
            sorted_v == by_newest(all),
            paths.deep_view() == sorted_v.take(i as int).map_values(|e: (Seq<char>, int)| e.0),
        decreases sorted.len() - i,
    {
        let ghost before = paths.deep_view();
        let path = sorted[i].0.clone();
        assert(path@ == sorted_v[i as int].0);
        paths.push(path);
        assert(paths.deep_view() =~= before.push(sorted_v[i as int].0));
        assert(sorted_v.take(i + 1).map_values(|e: (Seq<char>, int)| e.0)
            =~= sorted_v.take(i as int).map_values(|e: (Seq<char>, int)| e.0).push(sorted_v[i as int].0));
        i = i + 1;
    }
    assert(sorted_v.take(sorted.len() as int) =~= sorted_v);
    paths
}

/// Finds files by name pattern.
pub struct GlobTool;

impl GlobTool {
    pub fn new() -> Self {
        GlobTool
    }

    pub fn name(&self) -> (r: &'static str)
        ensures
            r@ == "Glob"@,
    {
        "Glob"
    }

    pub fn description(&self) -> (r: &'static str)
        ensures
            r@ == "- Fast file pattern matching tool that works with any codebase size\n- Supports glob patterns like \"/*.js\" or \"src/**/*.ts\"\n- Returns matching file paths sorted by modification time\n- Use this tool when you need to find files by name patterns"@,
    {
        "- Fast file pattern matching tool that works with any codebase size\n- Supports glob patterns like \"/*.js\" or \"src/**/*.ts\"\n- Returns matching file paths sorted by modification time\n- Use this tool when you need to find files by name patterns"
    }

    pub fn input_schema(&self) -> (r: &'static str)
        ensures
            r@ == GLOB_SCHEMA@,
    {
        GLOB_SCHEMA
    }

    /// The error for a search directory that does not exist.
    pub fn missing_directory(&self, dir: &str) -> (r: String)
        ensures
            r@ == "Directory does not exist: "@ + dir@,
    {
        concat("Directory does not exist: ", dir)
    }

    /// The error for a search path that is not a directory.
    pub fn not_a_directory(&self, dir: &str) -> (r: String)
        ensures
            r@ == "Path is not a directory: "@ + dir@,
    {
        concat("Path is not a directory: ", dir)
    }

    /// The error for a pattern the matcher refuses, with its reason.
    pub fn invalid_pattern(&self, reason: &str) -> (r: String)
        ensures
            r@ == "Invalid glob pattern: "@ + reason@,
    {
        concat("Invalid glob pattern: ", reason)
    }

    /// The pattern to look up under the (absolute) search directory `dir`.
    pub fn full_pattern(&self, dir: &str, pattern: &str) -> (r: String)
        ensures
            r@ == glob_full_pattern(dir@, pattern@),
    {
        if str_starts_with(pattern, "/") {
            concat(dir, pattern)
        } else {
            let mut s = String::from_str(dir);
            s.append("/");
            s.append(pattern);
            s
        }
    }

    /// Lists the matched paths, each given with its modification time, one
    /// per line and most recently modified first, at most `GLOB_LIMIT` of them.
    pub fn listing(&self, entries: Vec<(String, i128)>) -> (r: String)
        ensures
            r@ == glob_listing(listed_paths(entry_views(entries@))),
    {
        let mut paths = newest_first_paths(entries);
        if paths.len() == 0 {
            return String::from_str("No files found");
        }
        if paths.len() > GLOB_LIMIT {
            let ghost pv = paths.deep_view();
            paths.truncate(GLOB_LIMIT);
            paths.push(String::from_str(GLOB_TRUNCATED_NOTE));
            assert(paths.deep_view() =~= pv.take(GLOB_LIMIT as int).push(GLOB_TRUNCATED_NOTE@));
        }
        join_strings(&paths, "\n")
    }
}

} // verus!

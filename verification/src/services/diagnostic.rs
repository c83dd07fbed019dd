//! Code diagnostics (lint errors, warnings) before and after a file edit:
//! a baseline per file, the diagnostics that are new since, and a summary.

use vstd::prelude::*;
use crate::text::{
    chars_of, chars_in_bytes, chars_in_bytes_exec, concat, opt_view, seqs_of,
    slice_chars, split_chars, split_seq, starts_with_seq, str_eq, str_starts_with, string_of,
    trim_end_chars, trim_end_seq, u64_to_string, decimal_seq, utf8_len, utf8_len_exceeds,
};
use crate::json::{json_quote, json_string_of};

verus! {

/// How serious a diagnostic is.
#[derive(Clone, Copy, Debug, PartialEq, Eq, Structural)]
pub enum DiagnosticSeverity {
    Error,
    Warning,
    Info,
    Hint,
}

/// A zero-based line and column.
#[derive(Clone, Copy, Debug, PartialEq, Eq, Structural)]
pub struct Position {
    pub line: u32,
    pub character: u32,
}

/// A span of text.
#[derive(Clone, Copy, Debug, PartialEq, Eq, Structural)]
pub struct Range {
    pub start: Position,
    pub end: Position,
}

/// One diagnostic reported for a file.
pub struct Diagnostic {
    pub message: String,
    pub severity: DiagnosticSeverity,
    pub range: Range,
    pub source: Option<String>,
    pub code: Option<String>,
}

/// Mathematical value of a diagnostic.
pub struct DiagnosticView {
    pub message: Seq<char>,
    pub severity: DiagnosticSeverity,
    pub range: Range,
    pub source: Option<Seq<char>>,
    pub code: Option<Seq<char>>,
}

impl View for Diagnostic {
    type V = DiagnosticView;

    open spec fn view(&self) -> DiagnosticView {
        DiagnosticView {
            message: self.message@,
            severity: self.severity,
            range: self.range,
            source: opt_view(self.source),
            code: opt_view(self.code),
        }
    }
}

/// The diagnostics of one file.
pub struct DiagnosticFile {
    pub uri: String,
    pub diagnostics: Vec<Diagnostic>,
}

/// Mathematical value of a file's diagnostics.
pub struct DiagnosticFileView {
    pub uri: Seq<char>,
    pub diagnostics: Seq<DiagnosticView>,
}

/// Views of a list of diagnostics.
pub open spec fn diagnostic_views(v: Seq<Diagnostic>) -> Seq<DiagnosticView> {
    v.map_values(|d: Diagnostic| d@)
}

impl View for DiagnosticFile {
    type V = DiagnosticFileView;

    open spec fn view(&self) -> DiagnosticFileView {
        DiagnosticFileView { uri: self.uri@, diagnostics: diagnostic_views(self.diagnostics@) }
    }
}

/// Views of a list of files.
pub open spec fn file_views(v: Seq<DiagnosticFile>) -> Seq<DiagnosticFileView> {
    v.map_values(|f: DiagnosticFile| f@)
}

/// A file path or URI without its scheme prefix.
pub open spec fn normalize_uri(u: Seq<char>) -> Seq<char> {
    if starts_with_seq(u, "file://"@) {
        u.skip("file://"@.len() as int)
    } else if starts_with_seq(u, "_claude_fs_right:"@) {
        u.skip("_claude_fs_right:"@.len() as int)
    } else if starts_with_seq(u, "_claude_fs_left:"@) {
        u.skip("_claude_fs_left:"@.len() as int)
    } else {
        u
    }
}

fn strip_prefix_chars(u: &str, prefix: &str) -> (r: String)
    requires
        starts_with_seq(u@, prefix@),
    ensures
        r@ == u@.skip(prefix@.len() as int),
{
    let v = chars_of(u);
    let n = chars_of(prefix).len();
    string_of(&slice_chars(&v, n, v.len()))
}

/// `uri` without a leading `file://`, `_claude_fs_right:` or `_claude_fs_left:`.
pub fn normalize_file_uri(uri: &str) -> (r: String)
    ensures
        r@ == normalize_uri(uri@),
{
    if str_starts_with(uri, "file://") {
        strip_prefix_chars(uri, "file://")
    } else if str_starts_with(uri, "_claude_fs_right:") {
        strip_prefix_chars(uri, "_claude_fs_right:")
    } else if str_starts_with(uri, "_claude_fs_left:") {
        strip_prefix_chars(uri, "_claude_fs_left:")
    } else {
        String::from_str(uri)
    }
}

fn opt_str_eq(a: &Option<String>, b: &Option<String>) -> (r: bool)
    ensures
        r == (opt_view(*a) == opt_view(*b)),
{
    match (a, b) {
        (Some(x), Some(y)) => str_eq(x.as_str(), y.as_str()),
        (None, None) => true,
        _ => false,
    }
}

/// Whether two diagnostics are the same in every field.
pub fn diagnostic_eq(a: &Diagnostic, b: &Diagnostic) -> (r: bool)
    ensures
        r == (a@ == b@),
{
    str_eq(a.message.as_str(), b.message.as_str())
        && a.severity == b.severity
        && a.range == b.range
        && opt_str_eq(&a.source, &b.source)
        && opt_str_eq(&a.code, &b.code)
}

fn clone_diagnostic(d: &Diagnostic) -> (r: Diagnostic)
    ensures
        r@ == d@,
{
    Diagnostic {
        message: d.message.clone(),
        severity: d.severity,
        range: d.range,
        source: crate::text::clone_opt(&d.source),
        code: crate::text::clone_opt(&d.code),
    }
}

fn clone_diagnostics(v: &Vec<Diagnostic>) -> (r: Vec<Diagnostic>)
    ensures
        diagnostic_views(r@) == diagnostic_views(v@),
{
    let mut r: Vec<Diagnostic> = Vec::new();
    let mut i: usize = 0;
    while i < v.len()
        invariant
            i <= v.len(),
            diagnostic_views(r@) == diagnostic_views(v@).take(i as int),
        decreases v.len() - i,
    {
        let d = clone_diagnostic(&v[i]);
        let ghost before = r@;
        r.push(d);
        assert(diagnostic_views(r@) =~= diagnostic_views(before).push(d@));
        assert(diagnostic_views(v@).take(i + 1) =~= diagnostic_views(v@).take(i as int).push(v@[i as int]@));
        i = i + 1;
    }
    assert(diagnostic_views(v@).take(v.len() as int) =~= diagnostic_views(v@));
    r
}

/// Index of `key` in the baseline, if present.
pub open spec fn baseline_index(b: Seq<(Seq<char>, Seq<DiagnosticView>)>, key: Seq<char>) -> Option<int> {
    if exists|i: int| 0 <= i < b.len() && #[trigger] b[i].0 == key {
        Some(choose|i: int| 0 <= i < b.len() && #[trigger] b[i].0 == key)
    } else {
        None
    }
}

/// The baseline diagnostics recorded for `key`.
pub open spec fn baseline_lookup(b: Seq<(Seq<char>, Seq<DiagnosticView>)>, key: Seq<char>) -> Option<Seq<DiagnosticView>> {
    match baseline_index(b, key) {
        Some(i) => Some(b[i].1),
        None => None,
    }
}

/// The baseline after recording `ds` for `key`, replacing an earlier record.
pub open spec fn baseline_insert(b: Seq<(Seq<char>, Seq<DiagnosticView>)>, key: Seq<char>, ds: Seq<DiagnosticView>) -> Seq<(Seq<char>, Seq<DiagnosticView>)> {
    match baseline_index(b, key) {
        Some(i) => b.update(i, (key, ds)),
        None => b.push((key, ds)),
    }
}

/// No key is recorded twice.
pub open spec fn distinct_keys(b: Seq<(Seq<char>, Seq<DiagnosticView>)>) -> bool {
    forall|i: int, j: int| 0 <= i < b.len() && 0 <= j < b.len() && i != j ==> b[i].0 != b[j].0
}

/// Recording diagnostics for a file makes them its baseline, leaves every
/// other file's baseline as it was, and keeps one record per file.
pub proof fn law_baseline_read_after_write(
    b: Seq<(Seq<char>, Seq<DiagnosticView>)>,
    key: Seq<char>,
    ds: Seq<DiagnosticView>,
    other: Seq<char>,
)
    requires
        distinct_keys(b),
        other != key,
    ensures
        baseline_lookup(baseline_insert(b, key, ds), key) == Some(ds),
        baseline_lookup(baseline_insert(b, key, ds), other) == baseline_lookup(b, other),
        distinct_keys(baseline_insert(b, key, ds)),
{
    let r = baseline_insert(b, key, ds);
    match baseline_index(b, key) {
        Some(i) => {
            assert(r[i].0 == key);
            let j = choose|j: int| 0 <= j < r.len() && #[trigger] r[j].0 == key;
            assert(j == i);
            if exists|k: int| 0 <= k < b.len() && #[trigger] b[k].0 == other {
                let k = choose|k: int| 0 <= k < b.len() && #[trigger] b[k].0 == other;
                assert(r[k].0 == other);
                let k2 = choose|k2: int| 0 <= k2 < r.len() && #[trigger] r[k2].0 == other;
                assert(k2 == k);
            } else {
                assert forall|k: int| 0 <= k < r.len() implies #[trigger] r[k].0 != other by {
                    if k != i {
                        assert(r[k] == b[k]);
                    }
                }
            }
        },
        None => {
            assert(r[b.len() as int].0 == key);
            let j = choose|j: int| 0 <= j < r.len() && #[trigger] r[j].0 == key;
            assert(j == b.len());
            if exists|k: int| 0 <= k < b.len() && #[trigger] b[k].0 == other {
                let k = choose|k: int| 0 <= k < b.len() && #[trigger] b[k].0 == other;
                assert(r[k].0 == other);
                let k2 = choose|k2: int| 0 <= k2 < r.len() && #[trigger] r[k2].0 == other;
                assert(k2 == k);
            } else {
                assert forall|k: int| 0 <= k < r.len() implies #[trigger] r[k].0 != other by {
                    if k < b.len() {
                        assert(r[k] == b[k]);
                    }
                }
            }
        },
    }
}

/// A diagnostic is reported as new only if the file has it and its baseline
/// does not; every diagnostic the file has and the baseline lacks is reported.
pub proof fn law_unseen_exactly_new(ds: Seq<DiagnosticView>, known: Seq<DiagnosticView>, d: DiagnosticView)
    ensures
        unseen(ds, known).contains(d) <==> (ds.contains(d) && !known.contains(d)),
    decreases ds.len(),
{
    if ds.len() > 0 {
        law_unseen_exactly_new(ds.drop_last(), known, d);
        let pre = unseen(ds.drop_last(), known);
        let tail: Seq<DiagnosticView> = if known.contains(ds.last()) { Seq::empty() } else { seq![ds.last()] };
        assert(unseen(ds, known) == pre + tail);
        if (pre + tail).contains(d) {
            let i = choose|i: int| 0 <= i < (pre + tail).len() && (pre + tail)[i] == d;
            if i < pre.len() {
                assert(pre[i] == d);
                assert(pre.contains(d));
                let k = choose|k: int| 0 <= k < ds.drop_last().len() && ds.drop_last()[k] == d;
                assert(ds[k] == d);
            } else {
                assert(ds[ds.len() - 1] == d);
            }
        }
        if ds.contains(d) && !known.contains(d) {
            let k = choose|k: int| 0 <= k < ds.len() && ds[k] == d;
            if k < ds.len() - 1 {
                assert(ds.drop_last()[k] == d);
                assert(pre.contains(d));
                let i = choose|i: int| 0 <= i < pre.len() && pre[i] == d;
                assert((pre + tail)[i] == d);
            } else {
                assert((pre + tail)[pre.len() as int] == d);
            }
        }
    }
}

/// What a request for diagnostics came back with.
pub enum DiagnosticsFetch {
    /// The call to the IDE server failed.
    Failed,
    /// The reply was not a list of diagnostic files.
    Unreadable,
    /// The files the server reported.
    Files(Vec<DiagnosticFile>),
}

/// Tracks baseline diagnostics per file so that only new ones are reported.
pub struct DiagnosticTrackingService {
    baseline: Vec<(String, Vec<Diagnostic>)>,
    initialized: bool,
}

/// View of the baseline records.
pub open spec fn baseline_views(v: Seq<(String, Vec<Diagnostic>)>) -> Seq<(Seq<char>, Seq<DiagnosticView>)> {
    v.map_values(|e: (String, Vec<Diagnostic>)| (e.0@, diagnostic_views(e.1@)))
}

/// The diagnostics of `ds` that are not in `known`, in order.
pub open spec fn unseen(ds: Seq<DiagnosticView>, known: Seq<DiagnosticView>) -> Seq<DiagnosticView>
    decreases ds.len(),
{
    if ds.len() == 0 {
        Seq::empty()
    } else {
        unseen(ds.drop_last(), known) + (if known.contains(ds.last()) { Seq::empty() } else { seq![ds.last()] })
    }
}

/// The files with diagnostics that are new against the baseline: only
/// `file://` files that have a baseline, and only if something is new.
pub open spec fn new_diagnostic_files(files: Seq<DiagnosticFileView>, b: Seq<(Seq<char>, Seq<DiagnosticView>)>) -> Seq<DiagnosticFileView>
    decreases files.len(),
{
    if files.len() == 0 {
        Seq::empty()
    } else {
        let f = files.last();
        new_diagnostic_files(files.drop_last(), b) + (
            if starts_with_seq(f.uri, "file://"@) && baseline_lookup(b, normalize_uri(f.uri)) is Some
                && unseen(f.diagnostics, baseline_lookup(b, normalize_uri(f.uri))->Some_0).len() > 0 {
                seq![DiagnosticFileView {
                    uri: f.uri,
                    diagnostics: unseen(f.diagnostics, baseline_lookup(b, normalize_uri(f.uri))->Some_0),
                }]
            } else {
                Seq::empty()
            }
        )
    }
}

/// How one reported file shows against the baseline, if it shows at all:
/// a `file://` file with a baseline and something new since.
pub open spec fn reported_file(f: DiagnosticFileView, b: Seq<(Seq<char>, Seq<DiagnosticView>)>) -> Option<DiagnosticFileView> {
    if starts_with_seq(f.uri, "file://"@) && baseline_lookup(b, normalize_uri(f.uri)) is Some
        && unseen(f.diagnostics, baseline_lookup(b, normalize_uri(f.uri))->Some_0).len() > 0 {
        Some(DiagnosticFileView {
            uri: f.uri,
            diagnostics: unseen(f.diagnostics, baseline_lookup(b, normalize_uri(f.uri))->Some_0),
        })
    } else {
        None
    }
}

proof fn lemma_new_files_member(files: Seq<DiagnosticFileView>, b: Seq<(Seq<char>, Seq<DiagnosticView>)>, g: DiagnosticFileView)
    ensures
        new_diagnostic_files(files, b).contains(g)
            <==> exists|j: int| 0 <= j < files.len() && #[trigger] reported_file(files[j], b) == Some(g),
    decreases files.len(),
{
    if files.len() > 0 {
        let pre_files = files.drop_last();
        lemma_new_files_member(pre_files, b, g);
        let pre = new_diagnostic_files(pre_files, b);
        let f = files.last();
        let tail: Seq<DiagnosticFileView> = match reported_file(f, b) {
            Some(v) => seq![v],
            None => Seq::empty(),
        };
        assert(new_diagnostic_files(files, b) == pre + tail);
        if (pre + tail).contains(g) {
            let i = choose|i: int| 0 <= i < (pre + tail).len() && (pre + tail)[i] == g;
            if i < pre.len() {
                assert(pre[i] == g);
                assert(pre.contains(g));
                let j = choose|j: int| 0 <= j < pre_files.len() && #[trigger] reported_file(pre_files[j], b) == Some(g);
                assert(files[j] == pre_files[j]);
            } else {
                assert(reported_file(files[files.len() - 1], b) == Some(g));
            }
        }
        if exists|j: int| 0 <= j < files.len() && #[trigger] reported_file(files[j], b) == Some(g) {
            let j = choose|j: int| 0 <= j < files.len() && #[trigger] reported_file(files[j], b) == Some(g);
            if j < files.len() - 1 {
                assert(pre_files[j] == files[j]);
                assert(pre.contains(g));
                let i = choose|i: int| 0 <= i < pre.len() && pre[i] == g;
                assert((pre + tail)[i] == g);
            } else {
                assert((pre + tail)[pre.len() as int] == g);
            }
        }
    }
}

/// Diagnostics recorded for a file before it is edited are its baseline when
/// the new diagnostics are asked for afterwards: the edited file is reported,
/// with exactly the diagnostics its record lacks, when it has any; every file
/// reported is a `file://` file with a baseline, shown with the diagnostics
/// of its own that the baseline lacks, at least one.
pub proof fn law_reported_since_edit(
    b: Seq<(Seq<char>, Seq<DiagnosticView>)>,
    file_path: Seq<char>,
    before: DiagnosticsFetch,
    files: Seq<DiagnosticFileView>,
    i: int,
)
    requires
        distinct_keys(b),
        before matches DiagnosticsFetch::Files(fs) && fs@.len() > 0,
        0 <= i < files.len(),
        starts_with_seq(files[i].uri, "file://"@),
        normalize_uri(files[i].uri) == normalize_uri(file_path),
    ensures
        ({
            let b2 = baseline_after_fetch(b, file_path, before);
            let recorded = diagnostic_views(before->Files_0@[0].diagnostics@);
            let edited = DiagnosticFileView {
                uri: files[i].uri,
                diagnostics: unseen(files[i].diagnostics, recorded),
            };
            &&& new_diagnostic_files(files, b2).contains(edited) <==> unseen(files[i].diagnostics, recorded).len() > 0
            &&& forall|g: DiagnosticFileView| #[trigger] new_diagnostic_files(files, b2).contains(g) ==>
                exists|j: int| 0 <= j < files.len() && files[j].uri == g.uri
                    && starts_with_seq(g.uri, "file://"@)
                    && #[trigger] baseline_lookup(b2, normalize_uri(g.uri)) is Some
                    && g.diagnostics == unseen(files[j].diagnostics, baseline_lookup(b2, normalize_uri(g.uri))->Some_0)
                    && g.diagnostics.len() > 0
        }),
{
    let b2 = baseline_after_fetch(b, file_path, before);
    let recorded = diagnostic_views(before->Files_0@[0].diagnostics@);
    let key = normalize_uri(file_path);
    assert(key.push('#').len() != key.len());
    law_baseline_read_after_write(b, key, recorded, key.push('#'));
    assert(b2 == baseline_insert(b, key, recorded));
    assert(baseline_lookup(b2, key) == Some(recorded));
    let edited = DiagnosticFileView { uri: files[i].uri, diagnostics: unseen(files[i].diagnostics, recorded) };
    lemma_new_files_member(files, b2, edited);
    if unseen(files[i].diagnostics, recorded).len() > 0 {
        assert(reported_file(files[i], b2) == Some(edited));
    }
    if new_diagnostic_files(files, b2).contains(edited) {
        let j = choose|j: int| 0 <= j < files.len() && #[trigger] reported_file(files[j], b2) == Some(edited);
        assert(reported_file(files[j], b2) is Some);
    }
    assert forall|g: DiagnosticFileView| #[trigger] new_diagnostic_files(files, b2).contains(g) implies
        exists|j: int| 0 <= j < files.len() && files[j].uri == g.uri
            && starts_with_seq(g.uri, "file://"@)
            && #[trigger] baseline_lookup(b2, normalize_uri(g.uri)) is Some
            && g.diagnostics == unseen(files[j].diagnostics, baseline_lookup(b2, normalize_uri(g.uri))->Some_0)
            && g.diagnostics.len() > 0 by {
        lemma_new_files_member(files, b2, g);
        let j = choose|j: int| 0 <= j < files.len() && #[trigger] reported_file(files[j], b2) == Some(g);
        assert(files[j].uri == g.uri);
    }
}

/// The baseline after a request for `file_path`'s diagnostics came back
/// with `fetch`: a failed call records no diagnostics, an unreadable or
/// empty reply changes nothing, otherwise the first file's are recorded.
pub open spec fn baseline_after_fetch(
    b: Seq<(Seq<char>, Seq<DiagnosticView>)>,
    file_path: Seq<char>,
    fetch: DiagnosticsFetch,
) -> Seq<(Seq<char>, Seq<DiagnosticView>)> {
    match fetch {
        DiagnosticsFetch::Failed => baseline_insert(b, normalize_uri(file_path), Seq::empty()),
        DiagnosticsFetch::Unreadable => b,
        DiagnosticsFetch::Files(fs) => if fs@.len() > 0 {
            baseline_insert(b, normalize_uri(file_path), diagnostic_views(fs@[0].diagnostics@))
        } else {
            b
        },
    }
}

impl DiagnosticTrackingService {
    /// The recorded baseline: one entry per file.
    pub closed spec fn baseline(&self) -> Seq<(Seq<char>, Seq<DiagnosticView>)> {
        baseline_views(self.baseline@)
    }

    /// Well-formed: every file is recorded once.
    pub open spec fn wf(&self) -> bool {
        distinct_keys(self.baseline())
    }

    /// A service with an empty baseline.
    pub fn new() -> (r: Self)
        ensures
            r.wf(),
            r.baseline() == Seq::<(Seq<char>, Seq<DiagnosticView>)>::empty(),
    {
        let r = DiagnosticTrackingService { baseline: Vec::new(), initialized: false };
        assert(r.baseline() =~= Seq::<(Seq<char>, Seq<DiagnosticView>)>::empty());
        r
    }

    /// Forgets every baseline, for a new query loop.
    pub fn reset(&mut self)
        ensures
            final(self).wf(),
            final(self).baseline() == Seq::<(Seq<char>, Seq<DiagnosticView>)>::empty(),
    {
        self.baseline.clear();
        assert(self.baseline() =~= Seq::<(Seq<char>, Seq<DiagnosticView>)>::empty());
    }

    fn record(&mut self, key: String, ds: Vec<Diagnostic>)
        requires
            old(self).wf(),
        ensures
            final(self).wf(),
            final(self).baseline() == baseline_insert(old(self).baseline(), key@, diagnostic_views(ds@)),
    {
        let ghost b = self.baseline();
        let ghost entry = (key@, diagnostic_views(ds@));
        let mut i: usize = 0;
        while i < self.baseline.len()
            invariant
                i <= self.baseline.len(),
                b == self.baseline(),
                b == baseline_views(self.baseline@),
                distinct_keys(b),
                entry == (key@, diagnostic_views(ds@)),
                b == old(self).baseline(),
                forall|j: int| 0 <= j < i ==> b[j].0 != key@,
            decreases self.baseline.len() - i,
        {
            if str_eq(self.baseline[i].0.as_str(), key.as_str()) {
                assert(b[i as int].0 == key@);
                assert(baseline_index(b, key@) == Some(i as int)) by {
                    let c = choose|j: int| 0 <= j < b.len() && #[trigger] b[j].0 == key@;
                    assert(c == i);
                }
                let ghost old_vec = self.baseline@;
                self.baseline.set(i, (key, ds));
                assert(self.baseline@[i as int].0@ == entry.0);
                assert(self.baseline@[i as int].1@ == ds@);
                assert forall|j: int| 0 <= j < b.len() implies #[trigger] self.baseline()[j] == b.update(i as int, entry)[j] by {
                    if j != i {
                        assert(self.baseline@[j] == old_vec[j]);
                    }
                }
                assert(self.baseline() =~= b.update(i as int, entry));
                assert forall|p: int, q: int| 0 <= p < self.baseline().len() && 0 <= q < self.baseline().len() && p != q
                    implies self.baseline()[p].0 != self.baseline()[q].0 by {}
                return;
            }
            i = i + 1;
        }
        assert(baseline_index(b, key@) is None);
        self.baseline.push((key, ds));
        assert(self.baseline() =~= b.push(entry));
    }

    /// Records the baseline for `file_path` from what the diagnostics request
    /// for it came back with.
    pub fn before_file_edited(&mut self, file_path: &str, fetch: DiagnosticsFetch) -> (r: Result<(), String>)
        requires
            old(self).wf(),
        ensures
            r is Ok,
            final(self).wf(),
            final(self).baseline() == baseline_after_fetch(old(self).baseline(), file_path@, fetch),
    {
        let normalized = normalize_file_uri(file_path);
        match fetch {
            DiagnosticsFetch::Failed => {
                let empty: Vec<Diagnostic> = Vec::new();
                assert(diagnostic_views(empty@) =~= Seq::<DiagnosticView>::empty());
                self.record(normalized, empty);
            },
            DiagnosticsFetch::Unreadable => {},
            DiagnosticsFetch::Files(files) => {
                if files.len() > 0 {
                    let ds = clone_diagnostics(&files[0].diagnostics);
                    self.record(normalized, ds);
                }
            },
        }
        Ok(())
    }

    fn lookup(&self, key: &str) -> (r: Option<&Vec<Diagnostic>>)
        requires
            self.wf(),
        ensures
            match (r, baseline_lookup(self.baseline(), key@)) {
                (Some(v), Some(w)) => diagnostic_views(v@) == w,
                (None, None) => true,
                _ => false,
            },
    {
        let ghost b = self.baseline();
        let mut i: usize = 0;
        while i < self.baseline.len()
            invariant
                i <= self.baseline.len(),
                b == self.baseline(),
                b == baseline_views(self.baseline@),
                distinct_keys(b),
                forall|j: int| 0 <= j < i ==> b[j].0 != key@,
            decreases self.baseline.len() - i,
        {
            if str_eq(self.baseline[i].0.as_str(), key) {
                assert(b[i as int].0 == key@);
                assert(baseline_index(b, key@) == Some(i as int)) by {
                    let c = choose|j: int| 0 <= j < b.len() && #[trigger] b[j].0 == key@;
                    assert(c == i);
                }
                return Some(&self.baseline[i].1);
            }
            i = i + 1;
        }
        assert(baseline_index(b, key@) is None);
        None
    }

    /// The diagnostics that are new since the baseline, from what the
    /// request for all diagnostics came back with; nothing when it failed.
    pub fn get_new_diagnostics(&self, fetch: DiagnosticsFetch) -> (r: Result<Vec<DiagnosticFile>, String>)
        requires
            self.wf(),
        ensures
            r is Ok,
            file_views(r->Ok_0@) == (match fetch {
                DiagnosticsFetch::Files(fs) => new_diagnostic_files(file_views(fs@), self.baseline()),
                _ => Seq::empty(),
            }),
    {
        let files = match fetch {
            DiagnosticsFetch::Files(fs) => fs,
            _ => {
                let empty: Vec<DiagnosticFile> = Vec::new();
                assert(file_views(empty@) =~= Seq::<DiagnosticFileView>::empty());
                return Ok(empty);
            },
        };
        let ghost fv = file_views(files@);
        let mut out: Vec<DiagnosticFile> = Vec::new();
        let mut i: usize = 0;
        while i < files.len()
            invariant
                i <= files.len(),
                self.wf(),
                fv == file_views(files@),
                file_views(out@) == new_diagnostic_files(fv.take(i as int), self.baseline()),
            decreases files.len() - i,
        {
            let f = &files[i];
            assert(fv.take(i + 1).drop_last() =~= fv.take(i as int));
            assert(fv.take(i + 1).last() == f@);
            if str_starts_with(f.uri.as_str(), "file://") {
                let normalized = normalize_file_uri(f.uri.as_str());
                match self.lookup(normalized.as_str()) {
                    Some(known) => {
                        let fresh = unseen_diagnostics(&f.diagnostics, known);
                        if fresh.len() > 0 {
                            let ghost before = out@;
                            out.push(DiagnosticFile { uri: f.uri.clone(), diagnostics: fresh });
                            assert(file_views(out@) =~= file_views(before).push(out@.last()@));
                        }
                    },
                    None => {},
                }
            }
            i = i + 1;
        }
        assert(fv.take(files.len() as int) =~= fv);
        Ok(out)
    }
}

/// The diagnostics of `ds` that are not in `known`, in order.
pub fn unseen_diagnostics(ds: &Vec<Diagnostic>, known: &Vec<Diagnostic>) -> (r: Vec<Diagnostic>)
    ensures
        diagnostic_views(r@) == unseen(diagnostic_views(ds@), diagnostic_views(known@)),
{
    let ghost dv = diagnostic_views(ds@);
    let ghost kv = diagnostic_views(known@);
    let mut r: Vec<Diagnostic> = Vec::new();
    let mut i: usize = 0;
    while i < ds.len()
        invariant
            i <= ds.len(),
            dv == diagnostic_views(ds@),
            kv == diagnostic_views(known@),
            diagnostic_views(r@) == unseen(dv.take(i as int), kv),
        decreases ds.len() - i,
    {
        assert(dv.take(i + 1).drop_last() =~= dv.take(i as int));
        assert(dv.take(i + 1).last() == ds@[i as int]@);
        let mut seen = false;
        let mut j: usize = 0;
        while j < known.len()
            invariant
                j <= known.len(),
                i < ds.len(),
                kv == diagnostic_views(known@),
                seen == (exists|k: int| 0 <= k < j && kv[k] == ds@[i as int]@),
            decreases known.len() - j,
        {
            let same = diagnostic_eq(&known[j], &ds[i]);
            assert(kv[j as int] == known@[j as int]@);
            if same {
                seen = true;
            }
            assert(seen == (exists|k: int| 0 <= k < j + 1 && kv[k] == ds@[i as int]@)) by {
                if same {
                    assert(0 <= j < j + 1 && kv[j as int] == ds@[i as int]@);
                }
            }
            j = j + 1;
        }
        proof {
            if seen {
                let k = choose|k: int| 0 <= k < known.len() && kv[k] == ds@[i as int]@;
                assert(kv.contains(ds@[i as int]@));
            } else {
                assert(!kv.contains(ds@[i as int]@));
            }
        }
        if !seen {
            let d = clone_diagnostic(&ds[i]);
            let ghost before = r@;
            r.push(d);
            assert(diagnostic_views(r@) =~= diagnostic_views(before) + seq![d@]);
        } else {
            assert(unseen(dv.take(i + 1), kv) =~= unseen(dv.take(i as int), kv));
        }
        i = i + 1;
    }
    assert(dv.take(ds.len() as int) =~= dv);
    r
}

/// The arguments of the request for one file's diagnostics (JSON text).
pub open spec fn file_request_args(file_path: Seq<char>) -> Seq<char> {
    "{\"uri\":"@ + json_string_of("file://"@ + file_path) + "}"@
}

/// JSON arguments asking the IDE server for the diagnostics of `file_path`.
pub fn diagnostics_request_args(file_path: &str) -> (r: String)
    ensures
        r@ == file_request_args(file_path@),
{
    let uri = concat("file://", file_path);
    let mut r = String::from_str("{\"uri\":");
    r.append(json_quote(uri.as_str()).as_str());
    r.append("}");
    r
}

/// JSON arguments asking the IDE server for every file's diagnostics.
pub fn all_diagnostics_request_args() -> (r: &'static str)
    ensures
        r@ == "{}"@,
{
    "{}"
}

/// The mark shown for a severity.
pub open spec fn severity_symbol(s: DiagnosticSeverity) -> Seq<char> {
    match s {
        DiagnosticSeverity::Error => "\u{274c}"@,
        DiagnosticSeverity::Warning => "\u{26a0}\u{fe0f}"@,
        DiagnosticSeverity::Info => "\u{2139}\u{fe0f}"@,
        DiagnosticSeverity::Hint => "\u{1f4a1}"@,
    }
}

fn severity_mark(s: DiagnosticSeverity) -> (r: &'static str)
    ensures
        r@ == severity_symbol(s),
{
    match s {
        DiagnosticSeverity::Error => "\u{274c}",
        DiagnosticSeverity::Warning => "\u{26a0}\u{fe0f}",
        DiagnosticSeverity::Info => "\u{2139}\u{fe0f}",
        DiagnosticSeverity::Hint => "\u{1f4a1}",
    }
}

/// The last `/`-separated part of a URI.
pub open spec fn file_name_of(uri: Seq<char>) -> Seq<char> {
    split_seq(uri, '/').last()
}

/// The line that shows one diagnostic, with one-based line and column.
pub open spec fn diagnostic_line(d: DiagnosticView) -> Seq<char> {
    "  "@ + severity_symbol(d.severity) + " [Line "@ + decimal_seq((d.range.start.line + 1) as nat) + ":"@
        + decimal_seq((d.range.start.character + 1) as nat) + "] "@ + d.message
        + (match d.code { Some(c) => " ["@ + c + "]"@, None => Seq::empty() })
        + (match d.source { Some(src) => " ("@ + src + ")"@, None => Seq::empty() })
        + "\n"@
}

/// The lines of a list of diagnostics.
pub open spec fn diagnostic_lines(ds: Seq<DiagnosticView>) -> Seq<char>
    decreases ds.len(),
{
    if ds.len() == 0 {
        Seq::empty()
    } else {
        diagnostic_lines(ds.drop_last()) + diagnostic_line(ds.last())
    }
}

/// The block that shows one file.
pub open spec fn file_summary(f: DiagnosticFileView) -> Seq<char> {
    file_name_of(f.uri) + ":\n"@ + diagnostic_lines(f.diagnostics) + "\n"@
}

/// The blocks of all files, before any shortening.
pub open spec fn summary_text(files: Seq<DiagnosticFileView>) -> Seq<char>
    decreases files.len(),
{
    if files.len() == 0 {
        Seq::empty()
    } else {
        summary_text(files.drop_last()) + file_summary(files.last())
    }
}

/// Longest summary, in bytes, shown in full.
pub const MAX_SUMMARY_BYTES: usize = 4000;

/// The summary: cut at `MAX_SUMMARY_BYTES` bytes with a marker when longer,
/// otherwise without trailing whitespace.
pub open spec fn summary_of(files: Seq<DiagnosticFileView>) -> Seq<char> {
    let t = summary_text(files);
    if utf8_len(t) > MAX_SUMMARY_BYTES {
        t.take(chars_in_bytes(t, MAX_SUMMARY_BYTES as int)->Some_0 as int) + "...[truncated]"@
    } else {
        trim_end_seq(t)
    }
}

/// Every diagnostic's line and column can be shown one-based.
pub open spec fn positions_fit(files: Seq<DiagnosticFileView>) -> bool {
    forall|i: int, j: int| 0 <= i < files.len() && 0 <= j < files[i].diagnostics.len() ==>
        (#[trigger] files[i].diagnostics[j]).range.start.line < u32::MAX
        && files[i].diagnostics[j].range.start.character < u32::MAX
}

/// A summary too long to show can be cut at a character boundary.
pub open spec fn summary_cut_ok(files: Seq<DiagnosticFileView>) -> bool {
    utf8_len(summary_text(files)) > MAX_SUMMARY_BYTES ==> chars_in_bytes(summary_text(files), MAX_SUMMARY_BYTES as int) is Some
}

fn append_str_chars(v: &mut Vec<char>, s: &str)
    ensures
        final(v)@ == old(v)@ + s@,
{
    let t = chars_of(s);
    crate::text::append_chars(v, &t);
}

fn diagnostic_line_chars(d: &Diagnostic) -> (r: Vec<char>)
    requires
        d.range.start.line < u32::MAX,
        d.range.start.character < u32::MAX,
    ensures
        r@ == diagnostic_line(d@),
{
    let mut v: Vec<char> = Vec::new();
    append_str_chars(&mut v, "  ");
    append_str_chars(&mut v, severity_mark(d.severity));
    append_str_chars(&mut v, " [Line ");
    append_str_chars(&mut v, u64_to_string((d.range.start.line + 1) as u64).as_str());
    append_str_chars(&mut v, ":");
    append_str_chars(&mut v, u64_to_string((d.range.start.character + 1) as u64).as_str());
    append_str_chars(&mut v, "] ");
    append_str_chars(&mut v, d.message.as_str());
    match &d.code {
        Some(c) => {
            append_str_chars(&mut v, " [");
            append_str_chars(&mut v, c.as_str());
            append_str_chars(&mut v, "]");
        },
        None => {},
    }
    match &d.source {
        Some(src) => {
            append_str_chars(&mut v, " (");
            append_str_chars(&mut v, src.as_str());
            append_str_chars(&mut v, ")");
        },
        None => {},
    }
    append_str_chars(&mut v, "\n");
    v
}

proof fn lemma_split_nonempty(s: Seq<char>, c: char)
    ensures
        split_seq(s, c).len() >= 1,
{
    reveal_with_fuel(split_seq, 2);
}

fn file_summary_chars(f: &DiagnosticFile) -> (r: Vec<char>)
    requires
        forall|j: int| 0 <= j < f.diagnostics@.len() ==> (#[trigger] f.diagnostics@[j]).range.start.line < u32::MAX
            && f.diagnostics@[j].range.start.character < u32::MAX,
    ensures
        r@ == file_summary(f@),
{
    let uv = chars_of(f.uri.as_str());
    let parts = split_chars(&uv, '/');
    proof {
        lemma_split_nonempty(uv@, '/');
    }
    let mut v: Vec<char> = Vec::new();
    assert(seqs_of(parts@).len() == parts@.len());
    let last = &parts[parts.len() - 1];
    assert(last@ == seqs_of(parts@).last());
    crate::text::append_chars(&mut v, last);
    append_str_chars(&mut v, ":\n");
    let ghost head = v@;
    let ghost dv = diagnostic_views(f.diagnostics@);
    let mut j: usize = 0;
    while j < f.diagnostics.len()
        invariant
            j <= f.diagnostics.len(),
            dv == diagnostic_views(f.diagnostics@),
            forall|k: int| 0 <= k < f.diagnostics@.len() ==> (#[trigger] f.diagnostics@[k]).range.start.line < u32::MAX
                && f.diagnostics@[k].range.start.character < u32::MAX,
            v@ == head + diagnostic_lines(dv.take(j as int)),
        decreases f.diagnostics.len() - j,
    {
        assert(dv.take(j + 1).drop_last() =~= dv.take(j as int));
        assert(dv.take(j + 1).last() == f.diagnostics@[j as int]@);
        let line = diagnostic_line_chars(&f.diagnostics[j]);
        crate::text::append_chars(&mut v, &line);
        assert(v@ =~= head + diagnostic_lines(dv.take(j + 1)));
        j = j + 1;
    }
    assert(dv.take(f.diagnostics.len() as int) =~= dv);
    append_str_chars(&mut v, "\n");
    assert(v@ =~= file_summary(f@));
    v
}

/// The summary of `files` shown to the model: each file's name, then one
/// line per diagnostic; cut after `MAX_SUMMARY_BYTES` bytes when longer.
pub fn format_diagnostics_summary(files: &Vec<DiagnosticFile>) -> (r: String)
    requires
        positions_fit(file_views(files@)),
        summary_cut_ok(file_views(files@)),
    ensures
        r@ == summary_of(file_views(files@)),
{
    let ghost fv = file_views(files@);
    let mut v: Vec<char> = Vec::new();
    let mut i: usize = 0;
    while i < files.len()
        invariant
            i <= files.len(),
            fv == file_views(files@),
            positions_fit(fv),
            v@ == summary_text(fv.take(i as int)),
        decreases files.len() - i,
    {
        assert(fv.take(i + 1).drop_last() =~= fv.take(i as int));
        assert(fv.take(i + 1).last() == files@[i as int]@);
        proof {
            assert forall|j: int| 0 <= j < files@[i as int].diagnostics@.len() implies
                (#[trigger] files@[i as int].diagnostics@[j]).range.start.line < u32::MAX
                && files@[i as int].diagnostics@[j].range.start.character < u32::MAX by {
                assert(fv[i as int].diagnostics[j] == files@[i as int].diagnostics@[j]@);
            }
        }
        let block = file_summary_chars(&files[i]);
        crate::text::append_chars(&mut v, &block);
        i = i + 1;
    }
    assert(fv.take(files.len() as int) =~= fv);
    assert(v@ == summary_text(fv));
    if utf8_len_exceeds(&v, MAX_SUMMARY_BYTES) {
        assert(chars_in_bytes(v@, MAX_SUMMARY_BYTES as int) is Some);
        let n = match chars_in_bytes_exec(&v, MAX_SUMMARY_BYTES) {
            Some(n) => n,
            None => v.len(),
        };
        assert(n == chars_in_bytes(v@, MAX_SUMMARY_BYTES as int)->Some_0);
        let mut t = slice_chars(&v, 0, n);
        append_str_chars(&mut t, "...[truncated]");
        assert(v@.subrange(0, n as int) =~= v@.take(n as int));
        assert(t@ == summary_of(fv));
        string_of(&t)
    } else {
        string_of(&trim_end_chars(&v))
    }
}

/// Whether the summary of `files` can be shown: a too-long summary must be
/// cut at a character boundary.
pub fn summary_can_be_cut(files: &Vec<DiagnosticFile>) -> (r: bool)
    requires
        positions_fit(file_views(files@)),
    ensures
        r == summary_cut_ok(file_views(files@)),
{
    let ghost fv = file_views(files@);
    let mut v: Vec<char> = Vec::new();
    let mut i: usize = 0;
    while i < files.len()
        invariant
            i <= files.len(),
            fv == file_views(files@),
            positions_fit(fv),
            v@ == summary_text(fv.take(i as int)),
        decreases files.len() - i,
    {
        assert(fv.take(i + 1).drop_last() =~= fv.take(i as int));
        assert(fv.take(i + 1).last() == files@[i as int]@);
        proof {
            assert forall|j: int| 0 <= j < files@[i as int].diagnostics@.len() implies
                (#[trigger] files@[i as int].diagnostics@[j]).range.start.line < u32::MAX
                && files@[i as int].diagnostics@[j].range.start.character < u32::MAX by {
                assert(fv[i as int].diagnostics[j] == files@[i as int].diagnostics@[j]@);
            }
        }
        let block = file_summary_chars(&files[i]);
        crate::text::append_chars(&mut v, &block);
        i = i + 1;
    }
    assert(fv.take(files.len() as int) =~= fv);
    if utf8_len_exceeds(&v, MAX_SUMMARY_BYTES) {
        chars_in_bytes_exec(&v, MAX_SUMMARY_BYTES).is_some()
    } else {
        true
    }
}

/// Whether every diagnostic's line and column can be shown one-based.
pub fn positions_can_be_shown(files: &Vec<DiagnosticFile>) -> (r: bool)
    ensures
        r == positions_fit(file_views(files@)),
{
    let ghost fv = file_views(files@);
    let mut i: usize = 0;
    while i < files.len()
        invariant
            i <= files.len(),
            fv == file_views(files@),
            forall|a: int, b: int| 0 <= a < i && 0 <= b < fv[a].diagnostics.len() ==>
                (#[trigger] fv[a].diagnostics[b]).range.start.line < u32::MAX
                && fv[a].diagnostics[b].range.start.character < u32::MAX,
        decreases files.len() - i,
    {
        let ds = &files[i].diagnostics;
        let mut j: usize = 0;
        while j < ds.len()
            invariant
                i < files.len(),
                j <= ds.len(),
                fv == file_views(files@),
                ds == files@[i as int].diagnostics,
                forall|b: int| 0 <= b < j ==> (#[trigger] fv[i as int].diagnostics[b]).range.start.line < u32::MAX
                    && fv[i as int].diagnostics[b].range.start.character < u32::MAX,
            decreases ds.len() - j,
        {
            assert(fv[i as int].diagnostics[j as int] == ds@[j as int]@);
            if ds[j].range.start.line == u32::MAX || ds[j].range.start.character == u32::MAX {
                return false;
            }
            j = j + 1;
        }
        i = i + 1;
    }
    true
}

} // verus!

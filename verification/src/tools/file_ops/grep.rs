//! The content search: the search commands to run, and what their results
//! become.

use vstd::prelude::*;
use crate::text::{chars_of, concat, contains_seq, join_seq, join_strings, lines_chars, lines_seq, seqs_of, str_contains, string_of};

verus! {

/// Most result lines shown.
pub const GREP_LIMIT: usize = 200;

/// Line added when results were left out.
pub const GREP_TRUNCATED_NOTE: &'static str = "(Results are truncated. Consider using a more specific pattern or path.)";

/// Reply when nothing matched.
pub const NO_MATCHES: &'static str = "No matches found";

/// What a finished search command gave.
pub struct ProcessOutput {
    pub success: bool,
    pub code: Option<i32>,
    pub stdout: String,
    pub stderr: String,
}

/// What to do after the first search command.
pub enum GrepStep {
    /// The search is over with this result.
    Done(Result<String, String>),
    /// Run the plain `grep` command instead.
    RunFallback,
}

/// The arguments of the `rg` command.
pub open spec fn rg_args(pattern: Seq<char>, file_glob: Option<Seq<char>>, path: Seq<char>) -> Seq<Seq<char>> {
    seq!["-n"@, "-H"@, "--no-heading"@]
        + (match file_glob { Some(g) => seq!["-g"@, g], None => Seq::empty() })
        + seq![pattern, path]
}

/// The result of a successful search: its output, at most `GREP_LIMIT` lines.
pub open spec fn limited_matches(stdout: Seq<char>) -> Seq<char> {
    let lines = lines_seq(stdout);
    if lines.len() > GREP_LIMIT {
        join_seq(lines.take(GREP_LIMIT as int).push(GREP_TRUNCATED_NOTE@), "\n"@)
    } else if lines.len() == 0 {
        NO_MATCHES@
    } else {
        stdout
    }
}

/// Mathematical value of a finished command.
pub open spec fn output_view(o: ProcessOutput) -> (bool, Option<i32>, Seq<char>, Seq<char>) {
    (o.success, o.code, o.stdout@, o.stderr@)
}

/// The next step after the `rg` command came back with `outcome`.
pub open spec fn ripgrep_step(outcome: Result<(bool, Option<i32>, Seq<char>, Seq<char>), Seq<char>>) -> Option<Result<Seq<char>, Seq<char>>> {
    match outcome {
        Ok((success, code, stdout, stderr)) => {
            if success {
                Some(Ok(limited_matches(stdout)))
            } else if code == Some(1i32) && stdout.len() == 0 {
                Some(Ok(NO_MATCHES@))
            } else if contains_seq(stderr, "No such file or directory"@) {
                None
            } else {
                Some(Err("Grep execution failed: "@ + stderr))
            }
        },
        Err(e) => Some(Err("Failed to execute ripgrep/grep: "@ + e)),
    }
}

/// The result after the plain `grep` command came back with `outcome`.
pub open spec fn fallback_result(outcome: Result<(bool, Option<i32>, Seq<char>, Seq<char>), Seq<char>>) -> Result<Seq<char>, Seq<char>> {
    match outcome {
        Ok((success, _, stdout, _)) => if success { Ok(limited_matches(stdout)) } else { Ok(NO_MATCHES@) },
        Err(_) => Err("Failed to execute grep fallback"@),
    }
}

/// Views of a command outcome.
pub open spec fn outcome_view(o: Result<ProcessOutput, String>) -> Result<(bool, Option<i32>, Seq<char>, Seq<char>), Seq<char>> {
    match o {
        Ok(p) => Ok(output_view(p)),
        Err(e) => Err(e@),
    }
}

fn push_str(v: &mut Vec<String>, s: &str)
    ensures
        final(v).deep_view() == old(v).deep_view().push(s@),
{
    let ghost before = v.deep_view();
    v.push(String::from_str(s));
    assert(v.deep_view() =~= before.push(s@));
}

/// The output of a successful search, at most `GREP_LIMIT` lines.
pub fn limit_matches(stdout: &str) -> (r: String)
    ensures
        r@ == limited_matches(stdout@),
{
    let v = chars_of(stdout);
    let lines = lines_chars(&v);
    if lines.len() > GREP_LIMIT {
        let mut kept: Vec<String> = Vec::new();
        let mut i: usize = 0;
        while i < GREP_LIMIT
            invariant
                i <= GREP_LIMIT,
                GREP_LIMIT < lines.len(),
                kept.len() == i,
                kept.deep_view() == seqs_of(lines@).take(i as int),
            decreases GREP_LIMIT - i,
        {
            let s = string_of(&lines[i]);
            let ghost before = kept@;
            let ghost before_dv = kept.deep_view();
            kept.push(s);
            assert forall|j: int| 0 <= j < i + 1 implies #[trigger] kept.deep_view()[j] == seqs_of(lines@).take(i + 1)[j] by {
                if j < i {
                    assert(kept@[j] == before[j]);
                    assert(before_dv[j] == seqs_of(lines@).take(i as int)[j]);
                }
            }
            assert(kept.deep_view() =~= seqs_of(lines@).take(i + 1));
            i = i + 1;
        }
        push_str(&mut kept, GREP_TRUNCATED_NOTE);
        join_strings(&kept, "\n")
    } else if lines.len() == 0 {
        String::from_str(NO_MATCHES)
    } else {
        String::from_str(stdout)
    }
}

/// Searches file contents with a regular expression.
pub struct GrepTool;

impl GrepTool {
    pub fn new() -> Self {
        GrepTool
    }

    pub fn name(&self) -> (r: &'static str)
        ensures
            r@ == "Grep"@,
    {
        "Grep"
    }

    pub fn description(&self) -> (r: &'static str)
        ensures
            r@ == "- A powerful search tool\n- Supports full regex syntax (e.g., \"log.*Error\", \"function\\s+\\w+\")\n- Filter files with glob parameter (e.g., \"*.js\", \"**/*.tsx\")"@,
    {
        "- A powerful search tool\n- Supports full regex syntax (e.g., \"log.*Error\", \"function\\s+\\w+\")\n- Filter files with glob parameter (e.g., \"*.js\", \"**/*.tsx\")"
    }

    /// The error for a search path that does not exist.
    pub fn missing_path(&self, path: &str) -> (r: String)
        ensures
            r@ == "Directory or file does not exist: "@ + path@,
    {
        concat("Directory or file does not exist: ", path)
    }

    /// The arguments for `rg`: line numbers, file names, no headings, the
    /// optional file filter, the pattern and the path.
    pub fn ripgrep_args(&self, pattern: &str, file_glob: &Option<String>, path: &str) -> (r: Vec<String>)
        ensures
            r.deep_view() == rg_args(pattern@, crate::text::opt_view(*file_glob), path@),
    {
        let mut v: Vec<String> = Vec::new();
        push_str(&mut v, "-n");
        push_str(&mut v, "-H");
        push_str(&mut v, "--no-heading");
        match file_glob {
            Some(g) => {
                push_str(&mut v, "-g");
                push_str(&mut v, g.as_str());
            },
            None => {},
        }
        push_str(&mut v, pattern);
        push_str(&mut v, path);
        assert(v.deep_view() =~= rg_args(pattern@, crate::text::opt_view(*file_glob), path@));
        v
    }

    /// What to do once `rg` came back: the result, or a retry with `grep`
    /// when `rg` reported a missing file or directory.
    pub fn after_ripgrep(&self, outcome: &Result<ProcessOutput, String>) -> (r: GrepStep)
        ensures
            match (r, ripgrep_step(outcome_view(*outcome))) {
                (GrepStep::Done(Ok(s)), Some(Ok(t))) => s@ == t,
                (GrepStep::Done(Err(e)), Some(Err(m))) => e@ == m,
                (GrepStep::RunFallback, None) => true,
                _ => false,
            },
    {
        match outcome {
            Ok(o) => {
                if o.success {
                    GrepStep::Done(Ok(limit_matches(o.stdout.as_str())))
                } else if o.code == Some(1i32) && o.stdout.as_str().is_empty() {
                    GrepStep::Done(Ok(String::from_str(NO_MATCHES)))
                } else if str_contains(o.stderr.as_str(), "No such file or directory") {
                    GrepStep::RunFallback
                } else {
                    GrepStep::Done(Err(concat("Grep execution failed: ", o.stderr.as_str())))
                }
            },
            Err(e) => GrepStep::Done(Err(concat("Failed to execute ripgrep/grep: ", e.as_str()))),
        }
    }

    /// The result once the plain `grep` command came back.
    pub fn after_fallback(&self, outcome: &Result<ProcessOutput, String>) -> (r: Result<String, String>)
        ensures
            match (r, fallback_result(outcome_view(*outcome))) {
                (Ok(s), Ok(t)) => s@ == t,
                (Err(e), Err(m)) => e@ == m,
                _ => false,
            },
    {
        match outcome {
            Ok(o) => {
                if o.success {
                    Ok(limit_matches(o.stdout.as_str()))
                } else {
                    Ok(String::from_str(NO_MATCHES))
                }
            },
            Err(_) => Err(String::from_str("Failed to execute grep fallback")),
        }
    }
}

} // verus!

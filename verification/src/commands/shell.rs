//! Prompts with embedded shell commands: ``!`cmd` `` blocks are replaced by
//! what the command printed. Parsing and assembling happen here; running the
//! commands is left to the caller.

use vstd::prelude::*;
use crate::text::{
    chars_of, contains_seq, ends_with_seq, find_from, matches_at, next_char_index, piece_len,
    lemma_piece_len_bound, slice_chars, starts_with_seq, string_of,
};

verus! {

/// The marker that opens a command block.
pub open spec fn marker() -> Seq<char> {
    seq!['!', '`']
}

/// Index of the first command marker in `s`, if any.
pub open spec fn first_marker(s: Seq<char>) -> Option<int>
    decreases s.len(),
{
    if s.len() < 2 {
        None
    } else if s[0] == '!' && s[1] == '`' {
        Some(0)
    } else {
        match first_marker(s.drop_first()) {
            Some(k) => Some(k + 1),
            None => None,
        }
    }
}

/// Splits a prompt into the text around command blocks and the commands:
/// `texts[0] cmd[0] texts[1] cmd[1] ...`. A block runs to the next backtick
/// or, without one, to the end of the prompt.
#[verifier::opaque]
pub open spec fn split_prompt(s: Seq<char>) -> (Seq<Seq<char>>, Seq<Seq<char>>)
    decreases s.len(),
{
    match first_marker(s) {
        None => (seq![s], seq![]),
        Some(i) => {
            if 0 <= i && i + 2 <= s.len() {
                let after = s.skip(i + 2);
                let n = piece_len(after, '`');
                proof {
                    lemma_piece_len_bound(after, '`');
                }
                let rest = if n < after.len() { after.skip((n + 1) as int) } else { Seq::empty() };
                let (t, c) = split_prompt(rest);
                (seq![s.take(i)] + t, seq![after.take(n as int)] + c)
            } else {
                (seq![s], seq![])
            }
        },
    }
}

/// A prompt split around its command blocks; `texts` has one more entry than `commands`.
pub struct ShellPrompt {
    pub texts: Vec<String>,
    pub commands: Vec<String>,
}

/// What running a command gave.
pub enum CommandOutcome {
    /// The command ran; its standard output and error as text.
    Finished { stdout: String, stderr: String },
    /// The command could not be started.
    Failed { error: String },
}

/// Mathematical value of an outcome.
pub enum CommandOutcomeView {
    Finished { stdout: Seq<char>, stderr: Seq<char> },
    Failed { error: Seq<char> },
}

impl View for CommandOutcome {
    type V = CommandOutcomeView;

    open spec fn view(&self) -> CommandOutcomeView {
        match self {
            CommandOutcome::Finished { stdout, stderr } => CommandOutcomeView::Finished { stdout: stdout@, stderr: stderr@ },
            CommandOutcome::Failed { error } => CommandOutcomeView::Failed { error: error@ },
        }
    }
}

/// The text that replaces a command block.
pub open spec fn rendered(cmd: Seq<char>, o: CommandOutcomeView) -> Seq<char> {
    if cmd.len() == 0 {
        Seq::empty()
    } else {
        match o {
            CommandOutcomeView::Finished { stdout, stderr } =>
                (if stdout.len() > 0 { stdout } else { Seq::empty() })
                + (if stderr.len() > 0 { "\n[stderr]:\n"@ + stderr } else { Seq::empty() }),
            CommandOutcomeView::Failed { error } => "[Failed to execute '"@ + cmd + "': "@ + error + "]"@,
        }
    }
}

/// The prompt with the first `k` command blocks replaced by their output.
pub open spec fn assembled(texts: Seq<Seq<char>>, cmds: Seq<Seq<char>>, outs: Seq<CommandOutcomeView>, k: int) -> Seq<char>
    decreases k,
{
    if k <= 0 {
        texts[0]
    } else {
        assembled(texts, cmds, outs, k - 1) + rendered(cmds[k - 1], outs[k - 1]) + texts[k]
    }
}

/// Views of a list of outcomes.
pub open spec fn outcome_views(v: Seq<CommandOutcome>) -> Seq<CommandOutcomeView> {
    v.map_values(|o: CommandOutcome| o@)
}

proof fn lemma_first_marker(s: Seq<char>, i: int)
    requires
        0 <= i,
        matches_at(s, marker(), i),
        forall|k: int| 0 <= k < i ==> !#[trigger] matches_at(s, marker(), k),
    ensures
        first_marker(s) == Some(i),
    decreases i,
{
    assert(s.subrange(i, i + 2) =~= marker() ==> s[i] == '!' && s[i + 1] == '`');
    assert(s.subrange(i, i + 2)[0] == s[i]);
    assert(s.subrange(i, i + 2)[1] == s[i + 1]);
    if i > 0 {
        assert(!matches_at(s, marker(), 0));
        assert(!(s[0] == '!' && s[1] == '`')) by {
            if s[0] == '!' && s[1] == '`' {
                assert(s.subrange(0, 2) =~= marker());
            }
        }
        let t = s.drop_first();
        assert(t.subrange(i - 1, i + 1) =~= s.subrange(i, i + 2));
        assert forall|k: int| 0 <= k < i - 1 implies !#[trigger] matches_at(t, marker(), k) by {
            if matches_at(t, marker(), k) {
                assert(t.subrange(k, k + 2) =~= s.subrange(k + 1, k + 3));
                assert(matches_at(s, marker(), k + 1));
            }
        }
        lemma_first_marker(t, i - 1);
    }
}

proof fn lemma_no_marker(s: Seq<char>)
    requires
        forall|k: int| !#[trigger] matches_at(s, marker(), k),
    ensures
        first_marker(s) is None,
    decreases s.len(),
{
    if s.len() >= 2 {
        assert(!(s[0] == '!' && s[1] == '`')) by {
            if s[0] == '!' && s[1] == '`' {
                assert(s.subrange(0, 2) =~= marker());
                assert(matches_at(s, marker(), 0));
            }
        }
        let t = s.drop_first();
        assert forall|k: int| !#[trigger] matches_at(t, marker(), k) by {
            if matches_at(t, marker(), k) {
                assert(t.subrange(k, k + 2) =~= s.subrange(k + 1, k + 3));
                assert(matches_at(s, marker(), k + 1));
            }
        }
        lemma_no_marker(t);
    }
}

proof fn lemma_split_last(s: Seq<char>, i: int)
    requires
        0 <= i <= s.len(),
        forall|k: int| i <= k ==> !#[trigger] matches_at(s, marker(), k),
    ensures
        split_prompt(s.skip(i)) == (seq![s.skip(i)], Seq::<Seq<char>>::empty()),
{
    let rest = s.skip(i);
    assert forall|k: int| !#[trigger] matches_at(rest, marker(), k) by {
        if matches_at(rest, marker(), k) {
            assert(rest.subrange(k, k + 2) =~= s.subrange(i + k, i + k + 2));
            assert(matches_at(s, marker(), i + k));
        }
    }
    lemma_no_marker(rest);
    reveal(split_prompt);
}

/// The rest of the prompt after the block that starts at `j` and ends at `end`.
pub open spec fn after_block(s: Seq<char>, end: int) -> Seq<char> {
    if end < s.len() { s.skip(end + 1) } else { Seq::empty() }
}

proof fn lemma_split_step(s: Seq<char>, i: int, j: int, end: int)
    requires
        0 <= i <= j,
        j + 2 <= end <= s.len(),
        matches_at(s, marker(), j),
        forall|k: int| i <= k < j ==> !#[trigger] matches_at(s, marker(), k),
        piece_len(s.skip(j + 2), '`') == end - (j + 2),
    ensures
        split_prompt(s.skip(i)) == (
            seq![s.subrange(i, j)] + split_prompt(after_block(s, end)).0,
            seq![s.subrange(j + 2, end)] + split_prompt(after_block(s, end)).1,
        ),
{
    let rest = s.skip(i);
    let li = j - i;
    assert(rest.subrange(li, li + 2) =~= s.subrange(j, j + 2));
    assert forall|k: int| 0 <= k < li implies !#[trigger] matches_at(rest, marker(), k) by {
        if matches_at(rest, marker(), k) {
            assert(rest.subrange(k, k + 2) =~= s.subrange(i + k, i + k + 2));
            assert(matches_at(s, marker(), i + k));
        }
    }
    lemma_first_marker(rest, li);
    reveal(split_prompt);
    let after = rest.skip(li + 2);
    assert(after =~= s.skip(j + 2));
    assert(rest.take(li) =~= s.subrange(i, j));
    assert(after.take(end - (j + 2)) =~= s.subrange(j + 2, end));
    if end < s.len() {
        assert(after.skip(end - (j + 2) + 1) =~= s.skip(end + 1));
    }
}

impl ShellPrompt {
    /// Splits `prompt` around its ``!`cmd` `` blocks.
    pub fn parse(prompt: &str) -> (r: ShellPrompt)
        ensures
            r.texts.deep_view() == split_prompt(prompt@).0,
            r.commands.deep_view() == split_prompt(prompt@).1,
            r.texts.len() == r.commands.len() + 1,
    {
        let s = chars_of(prompt);
        let mut m: Vec<char> = Vec::new();
        m.push('!');
        m.push('`');
        assert(m@ =~= marker());
        let mut texts: Vec<String> = Vec::new();
        let mut commands: Vec<String> = Vec::new();
        let mut i: usize = 0;
        assert(s@.skip(0) =~= s@);
        loop
            invariant
                i <= s.len(),
                s@ == prompt@,
                m@ == marker(),
                texts.len() == commands.len(),
                texts.deep_view() + split_prompt(s@.skip(i as int)).0 == split_prompt(s@).0,
                commands.deep_view() + split_prompt(s@.skip(i as int)).1 == split_prompt(s@).1,
            decreases s.len() - i,
        {
            match find_from(&s, &m, i) {
                None => {
                    proof {
                        lemma_split_last(s@, i as int);
                    }
                    let t = string_of(&slice_chars(&s, i, s.len()));
                    let ghost tv = texts.deep_view();
                    texts.push(t);
                    assert(texts.deep_view() =~= tv + seq![s@.skip(i as int)]);
                    assert(commands.deep_view() + Seq::<Seq<char>>::empty() =~= commands.deep_view());
                    assert(texts.deep_view() == split_prompt(s@).0);
                    assert(commands.deep_view() == split_prompt(s@).1);
                    return ShellPrompt { texts, commands };
                },
                Some(j) => {
                    let start = j + 2;
                    let end = next_char_index(&s, start, '`');
                    proof {
                        lemma_split_step(s@, i as int, j as int, end as int);
                    }
                    let t = string_of(&slice_chars(&s, i, j));
                    let c = string_of(&slice_chars(&s, start, end));
                    let ghost tv = texts.deep_view();
                    let ghost cv = commands.deep_view();
                    let ghost nxt = split_prompt(after_block(s@, end as int));
                    texts.push(t);
                    commands.push(c);
                    assert(texts.deep_view() =~= tv + seq![t@]);
                    assert(commands.deep_view() =~= cv + seq![c@]);
                    if end < s.len() {
                        i = end + 1;
                    } else {
                        assert(s@.skip(s.len() as int) =~= Seq::<char>::empty());
                        i = s.len();
                    }
                    assert(s@.skip(i as int) == after_block(s@, end as int));
                    assert(texts.deep_view() + nxt.0 =~= tv + (seq![t@] + nxt.0));
                    assert(commands.deep_view() + nxt.1 =~= cv + (seq![c@] + nxt.1));
                },
            }
        }
    }
}

/// The text that replaces the block of command `cmd`.
pub fn render_outcome(cmd: &str, outcome: &CommandOutcome) -> (r: String)
    ensures
        r@ == rendered(cmd@, outcome@),
{
    if cmd.is_empty() {
        return String::new();
    }
    match outcome {
        CommandOutcome::Finished { stdout, stderr } => {
            let mut r = String::new();
            if !stdout.as_str().is_empty() {
                r.append(stdout.as_str());
            }
            if !stderr.as_str().is_empty() {
                r.append("\n[stderr]:\n");
                r.append(stderr.as_str());
            }
            r
        },
        CommandOutcome::Failed { error } => {
            let mut r = String::from_str("[Failed to execute '");
            r.append(cmd);
            r.append("': ");
            r.append(error.as_str());
            r.append("]");
            r
        },
    }
}

/// The prompt with every command block replaced by the text of its outcome;
/// `outcomes[k]` belongs to `commands[k]` (and is ignored for an empty command).
pub fn assemble_prompt(parsed: &ShellPrompt, outcomes: &Vec<CommandOutcome>) -> (r: String)
    requires
        parsed.texts.len() == parsed.commands.len() + 1,
        outcomes.len() == parsed.commands.len(),
    ensures
        r@ == assembled(
            parsed.texts.deep_view(),
            parsed.commands.deep_view(),
            outcome_views(outcomes@),
            parsed.commands.len() as int,
        ),
{
    let mut r = String::from_str(parsed.texts[0].as_str());
    let mut k: usize = 0;
    while k < parsed.commands.len()
        invariant
            k <= parsed.commands.len(),
            parsed.texts.len() == parsed.commands.len() + 1,
            outcomes.len() == parsed.commands.len(),
            r@ == assembled(parsed.texts.deep_view(), parsed.commands.deep_view(), outcome_views(outcomes@), k as int),
        decreases parsed.commands.len() - k,
    {
        r.append(render_outcome(parsed.commands[k].as_str(), &outcomes[k]).as_str());
        r.append(parsed.texts[k + 1].as_str());
        k = k + 1;
    }
    r
}

/// A prompt without command blocks comes back unchanged.
pub proof fn law_plain_prompt_unchanged(s: Seq<char>, outs: Seq<CommandOutcomeView>)
    requires
        !exists|i: int| #[trigger] matches_at(s, marker(), i),
    ensures
        split_prompt(s) == (seq![s], Seq::<Seq<char>>::empty()),
        assembled(split_prompt(s).0, split_prompt(s).1, outs, 0) == s,
{
    assert(s.skip(0) =~= s);
    lemma_split_last(s, 0);
}


/// What replaces a command block keeps everything the command printed: its
/// standard output comes first, unchanged; when it wrote to standard error,
/// the text ends with a `[stderr]` heading and that error output, whatever
/// the standard output was; with nothing on standard error, the text is the
/// standard output alone. A failed start names the command and its error.
/// An empty command leaves nothing.
pub proof fn law_outcome_keeps_output(cmd: Seq<char>, stdout: Seq<char>, stderr: Seq<char>, error: Seq<char>)
    ensures
        cmd.len() > 0 ==> starts_with_seq(
            rendered(cmd, CommandOutcomeView::Finished { stdout, stderr }),
            stdout,
        ),
        cmd.len() > 0 && stderr.len() > 0 ==> ends_with_seq(
            rendered(cmd, CommandOutcomeView::Finished { stdout, stderr }),
            "\n[stderr]:\n"@ + stderr,
        ),
        cmd.len() > 0 && stderr.len() == 0 ==> rendered(cmd, CommandOutcomeView::Finished { stdout, stderr }) == stdout,
        cmd.len() > 0 ==> contains_seq(rendered(cmd, CommandOutcomeView::Failed { error }), cmd)
            && contains_seq(rendered(cmd, CommandOutcomeView::Failed { error }), error),
        cmd.len() == 0 ==> rendered(cmd, CommandOutcomeView::Finished { stdout, stderr }).len() == 0
            && rendered(cmd, CommandOutcomeView::Failed { error }).len() == 0,
{
    if cmd.len() > 0 {
        let r = rendered(cmd, CommandOutcomeView::Finished { stdout, stderr });
        let tail: Seq<char> = if stderr.len() > 0 { "\n[stderr]:\n"@ + stderr } else { Seq::empty() };
        if stdout.len() > 0 {
            assert(r == stdout + tail);
        } else {
            assert(r =~= stdout + tail);
        }
        assert(r.subrange(0, stdout.len() as int) =~= stdout);
        if stderr.len() > 0 {
            assert(r.subrange(r.len() - tail.len(), r.len() as int) =~= tail);
        } else {
            assert(r =~= stdout);
        }
        let f = rendered(cmd, CommandOutcomeView::Failed { error });
        let a = "[Failed to execute '"@;
        let b = "': "@;
        assert(f == a + cmd + b + error + "]"@);
        assert(f.subrange(a.len() as int, (a.len() + cmd.len()) as int) =~= cmd);
        assert(matches_at(f, cmd, a.len() as int));
        assert(f.subrange((a.len() + cmd.len() + b.len()) as int, (a.len() + cmd.len() + b.len() + error.len()) as int) =~= error);
        assert(matches_at(f, error, (a.len() + cmd.len() + b.len()) as int));
    }
}

proof fn lemma_spliced_kept(texts: Seq<Seq<char>>, cmds: Seq<Seq<char>>, outs: Seq<CommandOutcomeView>, j: int, k: int)
    requires
        texts.len() == cmds.len() + 1,
        outs.len() == cmds.len(),
        0 <= j < k <= cmds.len(),
    ensures
        exists|i: int| matches_at(assembled(texts, cmds, outs, k), rendered(cmds[j], outs[j]), i),
    decreases k,
{
    let r = rendered(cmds[j], outs[j]);
    let a = assembled(texts, cmds, outs, k);
    if k == j + 1 {
        let pre = assembled(texts, cmds, outs, j);
        assert(a == pre + r + texts[k]);
        assert(a.subrange(pre.len() as int, (pre.len() + r.len()) as int) =~= r);
        assert(matches_at(a, r, pre.len() as int));
    } else {
        lemma_spliced_kept(texts, cmds, outs, j, k - 1);
        let pre = assembled(texts, cmds, outs, k - 1);
        let i = choose|i: int| matches_at(pre, r, i);
        assert(a == pre + rendered(cmds[k - 1], outs[k - 1]) + texts[k]);
        assert(a.subrange(i, i + r.len()) =~= pre.subrange(i, i + r.len()));
        assert(matches_at(a, r, i));
    }
}

/// Every command's error output reaches the assembled prompt: for each
/// non-empty command that finished with something on standard error, the
/// prompt holds the `[stderr]` heading followed by that output, whatever the
/// command printed on standard output.
pub proof fn law_stderr_reaches_prompt(texts: Seq<Seq<char>>, cmds: Seq<Seq<char>>, outs: Seq<CommandOutcomeView>, j: int)
    requires
        texts.len() == cmds.len() + 1,
        outs.len() == cmds.len(),
        0 <= j < cmds.len(),
        cmds[j].len() > 0,
        outs[j] matches CommandOutcomeView::Finished { stderr, .. } && stderr.len() > 0,
    ensures
        contains_seq(assembled(texts, cmds, outs, cmds.len() as int), "\n[stderr]:\n"@ + outs[j]->Finished_stderr),
{
    let a = assembled(texts, cmds, outs, cmds.len() as int);
    let r = rendered(cmds[j], outs[j]);
    let p = "\n[stderr]:\n"@ + outs[j]->Finished_stderr;
    lemma_spliced_kept(texts, cmds, outs, j, cmds.len() as int);
    let i = choose|i: int| matches_at(a, r, i);
    law_outcome_keeps_output(cmds[j], outs[j]->Finished_stdout, outs[j]->Finished_stderr, Seq::empty());
    assert(r == rendered(cmds[j], CommandOutcomeView::Finished {
        stdout: outs[j]->Finished_stdout,
        stderr: outs[j]->Finished_stderr,
    }));
    let off = r.len() - p.len();
    assert(r.subrange(off, off + p.len()) == p);
    assert(a.subrange(i + off, i + off + p.len()) =~= r.subrange(off, off + p.len()));
    assert(matches_at(a, p, i + off));
}

} // verus!

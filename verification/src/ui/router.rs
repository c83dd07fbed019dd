//! Where a submitted line goes: to the model as a chat prompt, to one of the
//! prompt-generating commands, or straight back as a reply.

use vstd::prelude::*;
use crate::text::{
    chars_of, concat, is_ws, join_chars, join_seq, seqs_of, split_whitespace_chars, starts_with_seq,
    str_eq, str_starts_with, string_of, trim, trim_seq, words_seq, lemma_token_len_bound,
};

verus! {

/// The commands that build a prompt for the model.
#[derive(Clone, Copy, Debug, PartialEq, Eq, Structural)]
pub enum PromptKind {
    Commit,
    CommitPushPr,
    Review,
    SecurityReview,
}

/// Where a submitted line goes.
pub enum CommandRoute {
    /// An ordinary prompt for the model.
    Chat(String),
    /// Announce `notice`, build the prompt of `kind` with `args`, and run it.
    Generate { notice: String, kind: PromptKind, args: String },
    /// Reply with this text and end the turn.
    Reply(String),
}

/// Mathematical value of a route.
pub enum CommandRouteView {
    Chat(Seq<char>),
    Generate { notice: Seq<char>, kind: PromptKind, args: Seq<char> },
    Reply(Seq<char>),
}

impl View for CommandRoute {
    type V = CommandRouteView;

    open spec fn view(&self) -> CommandRouteView {
        match self {
            CommandRoute::Chat(p) => CommandRouteView::Chat(p@),
            CommandRoute::Generate { notice, kind, args } => CommandRouteView::Generate { notice: notice@, kind: *kind, args: args@ },
            CommandRoute::Reply(t) => CommandRouteView::Reply(t@),
        }
    }
}

/// The list of commands shown by `/help`.
pub const HELP_TEXT: &'static str = "Available commands:\n  /commit - Create a git commit automatically\n  /commit-push-pr [args] - Commit, push and create a PR\n  /review [PR] - Review code changes or PR\n  /security-review - Run a deep security analysis on changes\n  /clear - Clear the conversation\n  /compact - Compact the conversation history";

/// The route of a command word with the rest of the line as `args`.
pub open spec fn command_route(command: Seq<char>, args: Seq<char>) -> CommandRouteView {
    if command == "/commit"@ {
        CommandRouteView::Generate { notice: "Executing /commit command..."@, kind: PromptKind::Commit, args }
    } else if command == "/commit-push-pr"@ {
        CommandRouteView::Generate { notice: "Executing /commit-push-pr command..."@, kind: PromptKind::CommitPushPr, args }
    } else if command == "/review"@ {
        CommandRouteView::Generate { notice: "Executing /review command..."@, kind: PromptKind::Review, args }
    } else if command == "/security-review"@ {
        CommandRouteView::Generate { notice: "Executing /security-review command..."@, kind: PromptKind::SecurityReview, args }
    } else if command == "/help"@ {
        CommandRouteView::Reply(HELP_TEXT@)
    } else if command == "/clear"@ {
        CommandRouteView::Reply("Conversation cleared."@)
    } else if command == "/compact"@ {
        CommandRouteView::Reply("Conversation compacted."@)
    } else {
        CommandRouteView::Reply("Unknown command: "@ + command)
    }
}

/// The route of a submitted line: a line starting with `/` is a command
/// (its first word), the other words, joined by single spaces, its arguments.
pub open spec fn route_of(prompt: Seq<char>) -> CommandRouteView {
    if starts_with_seq(prompt, "/"@) && words_seq(prompt).len() > 0 {
        command_route(words_seq(prompt)[0], join_seq(words_seq(prompt).drop_first(), " "@))
    } else {
        CommandRouteView::Chat(prompt)
    }
}

proof fn lemma_words_nonempty(s: Seq<char>)
    requires
        s.len() > 0,
        !is_ws(s[0]),
    ensures
        words_seq(s).len() > 0,
{
    lemma_token_len_bound(s);
}

/// Routes a submitted line.
pub fn route_prompt(prompt: &str) -> (r: CommandRoute)
    ensures
        r@ == route_of(prompt@),
        starts_with_seq(prompt@, "/"@) ==> !(r is Chat),
{
    if str_starts_with(prompt, "/") {
        let v = chars_of(prompt);
        let words = split_whitespace_chars(&v);
        proof {
            reveal_strlit("/");
            assert("/"@.len() == 1 && "/"@[0] == '/');
            assert(v@.take(1)[0] == v@[0]);
            assert(v@[0] == '/');
            lemma_words_nonempty(v@);
        }
        assert(seqs_of(words@).len() == words@.len());
        let command = string_of(&words[0]);
        let sp = chars_of(" ");
        let args = string_of(&join_chars(&words, 1, &sp));
        assert(seqs_of(words@).skip(1) =~= words_seq(prompt@).drop_first());
        let c = command.as_str();
        if str_eq(c, "/commit") {
            CommandRoute::Generate { notice: String::from_str("Executing /commit command..."), kind: PromptKind::Commit, args }
        } else if str_eq(c, "/commit-push-pr") {
            CommandRoute::Generate { notice: String::from_str("Executing /commit-push-pr command..."), kind: PromptKind::CommitPushPr, args }
        } else if str_eq(c, "/review") {
            CommandRoute::Generate { notice: String::from_str("Executing /review command..."), kind: PromptKind::Review, args }
        } else if str_eq(c, "/security-review") {
            CommandRoute::Generate { notice: String::from_str("Executing /security-review command..."), kind: PromptKind::SecurityReview, args }
        } else if str_eq(c, "/help") {
            CommandRoute::Reply(String::from_str(HELP_TEXT))
        } else if str_eq(c, "/clear") {
            CommandRoute::Reply(String::from_str("Conversation cleared."))
        } else if str_eq(c, "/compact") {
            CommandRoute::Reply(String::from_str("Conversation compacted."))
        } else {
            CommandRoute::Reply(concat("Unknown command: ", c))
        }
    } else {
        CommandRoute::Chat(String::from_str(prompt))
    }
}

/// The name a prompt kind is reported under when building it fails.
pub open spec fn prompt_kind_name(k: PromptKind) -> Seq<char> {
    match k {
        PromptKind::Commit => "commit"@,
        PromptKind::CommitPushPr => "commit-push-pr"@,
        PromptKind::Review => "review"@,
        PromptKind::SecurityReview => "security-review"@,
    }
}

/// The text run in place of a prompt that could not be built.
pub fn prompt_failure(kind: PromptKind, error: &str) -> (r: String)
    ensures
        r@ == "Error generating "@ + prompt_kind_name(kind) + " prompt: "@ + error@,
{
    let mut s = String::from_str("Error generating ");
    match kind {
        PromptKind::Commit => s.append("commit"),
        PromptKind::CommitPushPr => s.append("commit-push-pr"),
        PromptKind::Review => s.append("review"),
        PromptKind::SecurityReview => s.append("security-review"),
    }
    s.append(" prompt: ");
    s.append(error);
    s
}

/// The error reported when the agent could not run a prompt.
pub fn agent_failure(error: &str) -> (r: String)
    ensures
        r@ == "Failed to run agent: "@ + error@,
{
    concat("Failed to run agent: ", error)
}

/// What the line-based prompt does with a typed line.
pub enum ReplAction {
    /// Nothing was typed; ask again.
    Skip,
    /// Leave.
    Quit,
    /// Run this prompt.
    Run(String),
}

/// The action for a typed line.
pub open spec fn repl_action_of(line: Seq<char>) -> Option<Option<Seq<char>>> {
    let t = trim_seq(line);
    if t.len() == 0 {
        None
    } else if t == "/quit"@ || t == "/exit"@ {
        Some(None)
    } else {
        Some(Some(t))
    }
}

/// Decides what to do with a line typed at the line-based prompt.
pub fn repl_action(line: &str) -> (r: ReplAction)
    ensures
        match (r, repl_action_of(line@)) {
            (ReplAction::Skip, None) => true,
            (ReplAction::Quit, Some(None)) => true,
            (ReplAction::Run(p), Some(Some(t))) => p@ == t,
            _ => false,
        },
{
    let t = trim(line);
    if t.as_str().is_empty() {
        ReplAction::Skip
    } else if str_eq(t.as_str(), "/quit") || str_eq(t.as_str(), "/exit") {
        ReplAction::Quit
    } else {
        ReplAction::Run(t)
    }
}

} // verus!

//! The commit / push / pull-request prompt: a fixed template around the
//! user's name and the base branch, with optional extra instructions. Its
//! ``!`git ...` `` blocks are expanded afterwards (see `commands::shell`).

use vstd::prelude::*;
use crate::text::{trim, trim_seq};

verus! {

/// Template text up to the user's name.
pub const PR_HEAD: &'static str = "## Context\n\n- `USER`: ";

/// Template text between the user's name and the first base-branch mention.
pub const PR_AFTER_USER: &'static str = "\n- `git status`: !`git status`\n- `git diff HEAD`: !`git diff HEAD`\n- `git branch --show-current`: !`git branch --show-current`\n- `git diff ";

/// Template text between the first and second base-branch mentions.
pub const PR_DIFF_MID: &'static str = "...HEAD`: !`git diff ";

/// Template text between the second and third base-branch mentions.
pub const PR_DIFF_TAIL: &'static str = "...HEAD`\n- `gh pr view --json number 2>/dev/null || true`: !`gh pr view --json number 2>/dev/null || true`\n\n## Git Safety Protocol\n\n- NEVER update the git config\n- NEVER run destructive/irreversible git commands (like push --force, hard reset, etc) unless the user explicitly requests them\n- NEVER skip hooks (--no-verify, --no-gpg-sign, etc) unless the user explicitly requests it\n- NEVER run force push to main/master, warn the user if they request it\n- Do not commit files that likely contain secrets (.env, credentials.json, etc)\n- Never use git commands with the -i flag (like git rebase -i or git add -i) since they require interactive input which is not supported\n\n## Your task\n\nAnalyze all changes that will be included in the pull request, making sure to look at all relevant commits.\n\nBased on the above changes:\n1. Create a new branch if on ";

/// Template text after the third base-branch mention.
pub const PR_TASK: &'static str = " (use USER from context above for the branch name prefix, e.g., `username/feature-name`)\n2. Create a single commit with an appropriate message using heredoc syntax:\n```\ngit commit -m \"$(cat <<'EOF'\nCommit message here.\n\nCo-authored-by: Assistant Code <assistant-code@anthropic.com>\nEOF\n)\"\n```\n3. Push the branch to origin\n4. If a PR already exists for this branch (check the gh pr view output above), update the PR title and body using `gh pr edit` to reflect the current diff. Otherwise, create a pull request using `gh pr create` with heredoc syntax for the body.\n   - IMPORTANT: Keep PR titles short (under 70 characters). Use the body for details.\n```\ngh pr create --title \"Short, descriptive title\" --body \"$(cat <<'EOF'\n## Summary\n<1-3 bullet points>\n\n## Test plan\n[Bulleted markdown checklist of TODOs for testing the pull request...]\n\nCo-authored-by: Assistant Code <assistant-code@anthropic.com>\nEOF\n)\"\n```\n\nYou have the capability to call multiple tools in a single response. You MUST do all of the above in a single message.\n\nReturn the PR URL when you're done, so the user can see it.";

/// Heading that introduces the user's extra instructions.
pub const PR_EXTRA_HEADING: &'static str = "\n\n## Additional instructions from user\n\n";

/// The base branch the pull request targets.
pub const DEFAULT_BRANCH: &'static str = "main";

/// The filled-in template before any command block runs.
pub open spec fn pr_template(user: Seq<char>, branch: Seq<char>, args: Seq<char>) -> Seq<char> {
    PR_HEAD@ + user + PR_AFTER_USER@ + branch + PR_DIFF_MID@ + branch + PR_DIFF_TAIL@ + branch + PR_TASK@
        + (if trim_seq(args).len() > 0 { PR_EXTRA_HEADING@ + trim_seq(args) } else { Seq::empty() })
}

/// The commit / push / pull-request prompt for `user`, with `args` (trimmed)
/// appended under its own heading when anything is left of it.
pub fn commit_push_pr_template(user: &str, args: &str) -> (r: String)
    ensures
        r@ == pr_template(user@, DEFAULT_BRANCH@, args@),
{
    let mut r = String::from_str(PR_HEAD);
    r.append(user);
    r.append(PR_AFTER_USER);
    r.append(DEFAULT_BRANCH);
    r.append(PR_DIFF_MID);
    r.append(DEFAULT_BRANCH);
    r.append(PR_DIFF_TAIL);
    r.append(DEFAULT_BRANCH);
    r.append(PR_TASK);
    let extra = trim(args);
    if !extra.as_str().is_empty() {
        r.append(PR_EXTRA_HEADING);
        r.append(extra.as_str());
    }
    r
}

} // verus!

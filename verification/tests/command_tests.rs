use claude_code_rs::api::{ContentBlock, Message, Role};
use claude_code_rs::commands::advisor::AdvisorCommand;
use claude_code_rs::commands::commit::commit_push_pr_template;
use claude_code_rs::commands::conversation::{BriefCommand, ClearCommand, CompactCommand};
use claude_code_rs::commands::mcp::McpCommand;
use claude_code_rs::commands::shell::{assemble_prompt, CommandOutcome, ShellPrompt};

fn msg(role: Role, text: &str) -> Message {
    Message::text(role, text.to_string())
}

fn text_of(m: &Message) -> String {
    match &m.content[0] {
        ContentBlock::Text { text } => text.clone(),
    }
}

#[test]
fn advisor_without_argument_reports_the_setting() {
    assert_eq!(
        AdvisorCommand::handle_advisor("", None, "assistant-3-5-sonnet-20241022"),
        Ok(("Advisor: not set\nUse \"/advisor <model>\" to enable (e.g. \"/advisor opus\").".to_string(), None))
    );
    assert_eq!(
        AdvisorCommand::handle_advisor("  ", Some("opus"), "assistant-3-5-sonnet-20241022"),
        Ok(("Advisor: opus\nUse \"/advisor unset\" to disable or \"/advisor <model>\" to change.".to_string(), Some("opus".to_string())))
    );
    assert_eq!(
        AdvisorCommand::handle_advisor("", Some("opus"), "assistant-3-opus"),
        Ok(("Advisor: opus (inactive)\nThe current model (assistant-3-opus) does not support advisors.".to_string(), Some("opus".to_string())))
    );
}

#[test]
fn advisor_set_normalizes_shorthands() {
    assert_eq!(
        AdvisorCommand::handle_advisor("  OPUS ", None, "assistant-3-5-sonnet-20241022"),
        Ok(("Advisor set to assistant-3-opus-20240229.".to_string(), Some("assistant-3-opus-20240229".to_string())))
    );
    assert_eq!(
        AdvisorCommand::handle_advisor("haiku", Some("x"), "assistant-3-opus"),
        Ok((
            "Advisor set to assistant-3-5-haiku-20241022.\nNote: Your current model (assistant-3-opus) does not support advisors. Switch to a supported model to use the advisor.".to_string(),
            Some("assistant-3-5-haiku-20241022".to_string())
        ))
    );
    assert_eq!(
        AdvisorCommand::handle_advisor("Assistant-Next", None, "sonnet"),
        Ok(("Advisor set to assistant-next.".to_string(), Some("assistant-next".to_string())))
    );
}

#[test]
fn advisor_unset_and_invalid() {
    assert_eq!(
        AdvisorCommand::handle_advisor("off", Some("opus"), "sonnet"),
        Ok(("Advisor disabled (was opus).".to_string(), None))
    );
    assert_eq!(AdvisorCommand::handle_advisor("unset", None, "sonnet"), Ok(("Advisor already unset.".to_string(), None)));
    assert_eq!(
        AdvisorCommand::handle_advisor("gpt", Some("opus"), "sonnet"),
        Ok(("Invalid or unknown advisor model: gpt".to_string(), Some("opus".to_string())))
    );
}

#[test]
fn brief_toggles() {
    let (on, display, reminder) = BriefCommand::toggle_brief_mode(false).unwrap();
    assert!(on);
    assert_eq!(display, "Brief-only mode enabled");
    assert_eq!(reminder, "<system-reminder>\nBrief mode is now enabled. Use the Brief tool for all user-facing output — plain text outside it is hidden from the user's view.\n</system-reminder>");
    let (off, display, reminder) = BriefCommand::toggle_brief_mode(true).unwrap();
    assert!(!off);
    assert_eq!(display, "Brief-only mode disabled");
    assert_eq!(reminder, "<system-reminder>\nBrief mode is now disabled. The Brief tool is no longer available — reply with plain text.\n</system-reminder>");
}

#[test]
fn clear_empties_the_conversation() {
    let mut h: Vec<Message> = vec![];
    assert_eq!(ClearCommand::handle_clear(&mut h), Ok("Conversation is already empty.".to_string()));
    let mut h = vec![msg(Role::User, "a"), msg(Role::Assistant, "b"), msg(Role::User, "c")];
    assert_eq!(ClearCommand::handle_clear(&mut h), Ok("Conversation cleared (removed 3 messages).".to_string()));
    assert!(h.is_empty());
}

#[test]
fn compact_keeps_first_and_last_two() {
    let mut h: Vec<Message> = (0..5).map(|i| msg(Role::User, &format!("m{}", i))).collect();
    assert_eq!(CompactCommand::handle_compact("", &mut h), Ok("Compacted 2 messages.".to_string()));
    assert_eq!(h.len(), 4);
    assert_eq!(text_of(&h[0]), "m0");
    assert_eq!(h[1].role, Role::Assistant);
    assert_eq!(text_of(&h[1]), "[System: Conversation compacted. Older messages have been removed to save tokens.]");
    assert_eq!(text_of(&h[2]), "m3");
    assert_eq!(text_of(&h[3]), "m4");
}

#[test]
fn compact_with_instructions_and_short_histories() {
    let mut h: Vec<Message> = (0..4).map(|i| msg(Role::User, &format!("m{}", i))).collect();
    CompactCommand::handle_compact("keep api notes", &mut h).unwrap();
    assert_eq!(text_of(&h[1]), "[System: Conversation compacted with instructions: 'keep api notes']");
    let mut two = vec![msg(Role::User, "a"), msg(Role::User, "b")];
    assert_eq!(
        CompactCommand::handle_compact("", &mut two),
        Ok("No messages to compact. Conversation is already short.".to_string())
    );
    assert_eq!(two.len(), 2);
    let mut three = vec![msg(Role::User, "a"), msg(Role::User, "b"), msg(Role::User, "c")];
    assert_eq!(CompactCommand::handle_compact("", &mut three), Ok("Conversation too short to compact.".to_string()));
    assert_eq!(three.len(), 3);
}

#[test]
fn mcp_subcommands() {
    assert_eq!(McpCommand::handle_mcp("  "), Ok("Usage: /mcp [add|remove|list|restart] <args>".to_string()));
    assert_eq!(McpCommand::handle_mcp("list"), Ok("Configured MCP Servers:\n  - sqlite (stdio)\n  - github (stdio)".to_string()));
    assert_eq!(
        McpCommand::handle_mcp("add  db sqlite3   --db x"),
        Ok("Added MCP server 'db' with command 'sqlite3 --db x'. Note: MCP configs are mocked.".to_string())
    );
    assert_eq!(McpCommand::handle_mcp("add db"), Ok("Usage: /mcp add <name> <command> [args...]".to_string()));
    assert_eq!(McpCommand::handle_mcp("remove db"), Ok("Removed MCP server 'db'.".to_string()));
    assert_eq!(McpCommand::handle_mcp("remove"), Ok("Usage: /mcp remove <name>".to_string()));
    assert_eq!(McpCommand::handle_mcp("restart now"), Ok("Restarted all MCP server connections.".to_string()));
    assert_eq!(
        McpCommand::handle_mcp("frob x"),
        Ok("Unknown mcp subcommand: frob. Available: add, remove, list, restart".to_string())
    );
}

#[test]
fn commit_template_fills_user_branch_and_extra_instructions() {
    let p = commit_push_pr_template("alice", "  fix the tests  ");
    assert!(p.starts_with("## Context\n\n- `USER`: alice\n- `git status`: !`git status`\n"));
    assert!(p.contains("- `git diff main...HEAD`: !`git diff main...HEAD`\n"));
    assert!(p.contains("1. Create a new branch if on main (use USER from context above"));
    assert!(p.contains("Return the PR URL when you're done, so the user can see it."));
    assert!(p.ends_with("so the user can see it.\n\n## Additional instructions from user\n\nfix the tests"));
    let q = commit_push_pr_template("bob", "   ");
    assert!(q.ends_with("Return the PR URL when you're done, so the user can see it."));
    assert!(q.contains("git commit -m \"$(cat <<'EOF'\nCommit message here.\n\nCo-authored-by: Assistant Code <assistant-code@anthropic.com>\nEOF\n)\""));
}

#[test]
fn shell_prompt_splits_around_command_blocks() {
    let p = ShellPrompt::parse("a !`echo hi` b");
    assert_eq!(p.texts, vec!["a ", " b"]);
    assert_eq!(p.commands, vec!["echo hi"]);
    let q = ShellPrompt::parse("x !`unterminated");
    assert_eq!(q.texts, vec!["x ", ""]);
    assert_eq!(q.commands, vec!["unterminated"]);
    let r = ShellPrompt::parse("plain ! text with `ticks`");
    assert_eq!(r.texts, vec!["plain ! text with `ticks`"]);
    assert!(r.commands.is_empty());
    let s = ShellPrompt::parse("!!`ls`");
    assert_eq!(s.texts, vec!["!", ""]);
    assert_eq!(s.commands, vec!["ls"]);
}

#[test]
fn shell_prompt_assembles_command_output() {
    let p = ShellPrompt::parse("a !`echo hi` b");
    let out = vec![CommandOutcome::Finished { stdout: "hi\n".to_string(), stderr: String::new() }];
    assert_eq!(assemble_prompt(&p, &out), "a hi\n b");
    let both = vec![CommandOutcome::Finished { stdout: "hi".to_string(), stderr: "warn".to_string() }];
    assert_eq!(assemble_prompt(&p, &both), "a hi\n[stderr]:\nwarn b");
    let failed = vec![CommandOutcome::Failed { error: "boom".to_string() }];
    assert_eq!(assemble_prompt(&p, &failed), "a [Failed to execute 'echo hi': boom] b");
    let empty = ShellPrompt::parse("a!``b");
    let any = vec![CommandOutcome::Finished { stdout: "x".to_string(), stderr: String::new() }];
    assert_eq!(assemble_prompt(&empty, &any), "ab");
    let plain = ShellPrompt::parse("no blocks here");
    assert_eq!(assemble_prompt(&plain, &vec![]), "no blocks here");
}

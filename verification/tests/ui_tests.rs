use claude_code_rs::ui::app::{sender_color, status_text, AgentEvent, App, AppState, KeyAction, KeyOutcome, SenderColor};
use claude_code_rs::ui::layout::{content_rect, node_rect, CellRect};
use claude_code_rs::ui::router::{agent_failure, prompt_failure, repl_action, route_prompt, CommandRoute, PromptKind, ReplAction, HELP_TEXT};

fn last(app: &App) -> (String, String) {
    let m = app.messages.last().unwrap();
    (m.sender.clone(), m.text.clone())
}

#[test]
fn app_starts_with_greeting() {
    let app = App::new();
    assert_eq!(app.state, AppState::Input);
    assert_eq!(app.messages.len(), 1);
    assert_eq!(last(&app), ("System".to_string(), "Welcome to Assistant Code (Rust Edition)!".to_string()));
    assert_eq!(app.selected, None);
    assert!(!app.should_quit);
}

#[test]
fn added_message_is_selected() {
    let mut app = App::new();
    app.add_message("User", "hi");
    assert_eq!(app.selected, Some(1));
    app.add_message("Assistant", "hello");
    assert_eq!(app.selected, Some(2));
    assert_eq!(last(&app), ("Assistant".to_string(), "hello".to_string()));
}

#[test]
fn agent_events_drive_the_state() {
    let mut app = App::new();
    app.handle_agent_event(AgentEvent::Thinking);
    assert_eq!(app.state, AppState::Thinking);
    app.handle_agent_event(AgentEvent::ToolCall("Bash".to_string(), "{\"command\":\"ls\"}".to_string()));
    assert_eq!(app.state, AppState::ExecutingTool);
    assert_eq!(last(&app), ("Tool".to_string(), "Call: Bash ({\"command\":\"ls\"})".to_string()));
    app.handle_agent_event(AgentEvent::ToolResult("Bash".to_string(), Ok("a.txt".to_string())));
    assert_eq!(app.state, AppState::Thinking);
    assert_eq!(last(&app).1, "Result [Bash]: a.txt");
    app.handle_agent_event(AgentEvent::ToolResult("Bash".to_string(), Err("denied".to_string())));
    assert_eq!(last(&app).1, "Error [Bash]: denied");
    app.handle_agent_event(AgentEvent::Message("done".to_string()));
    assert_eq!(last(&app), ("Assistant".to_string(), "done".to_string()));
    app.handle_agent_event(AgentEvent::Finished);
    assert_eq!(app.state, AppState::Input);
    app.handle_agent_event(AgentEvent::Error("boom".to_string()));
    assert_eq!(app.state, AppState::Input);
    assert_eq!(last(&app), ("Error".to_string(), "boom".to_string()));
    assert_eq!(app.selected, Some(app.messages.len() - 1));
}

#[test]
fn keys_submit_quit_and_forward() {
    let mut app = App::new();
    let lines = vec!["  hello".to_string(), "world  ".to_string()];
    match app.handle_key(KeyAction::Enter, &lines) {
        KeyOutcome::Submit(p) => assert_eq!(p, "hello\nworld"),
        _ => panic!("expected a submission"),
    }
    assert_eq!(app.state, AppState::Thinking);
    assert_eq!(last(&app), ("User".to_string(), "hello\nworld".to_string()));
    assert!(matches!(app.handle_key(KeyAction::Enter, &lines), KeyOutcome::Handled));
    assert!(matches!(app.handle_key(KeyAction::Other, &lines), KeyOutcome::Handled));
    app.handle_agent_event(AgentEvent::Finished);
    assert!(matches!(app.handle_key(KeyAction::Other, &lines), KeyOutcome::ForwardToInput));
    let n = app.messages.len();
    assert!(matches!(app.handle_key(KeyAction::Enter, &vec!["   ".to_string()]), KeyOutcome::Handled));
    assert_eq!(app.messages.len(), n);
    assert!(matches!(app.handle_key(KeyAction::Escape, &lines), KeyOutcome::Handled));
    assert!(app.should_quit);
}

#[test]
fn status_and_colors() {
    assert_eq!(status_text(AppState::Input), " Ready");
    assert_eq!(status_text(AppState::Thinking), " \u{1f916} Assistant is thinking...");
    assert_eq!(status_text(AppState::ExecutingTool), " \u{1f6e0}\u{fe0f} Executing Tool...");
    assert_eq!(sender_color("User"), SenderColor::Blue);
    assert_eq!(sender_color("Assistant"), SenderColor::Green);
    assert_eq!(sender_color("System"), SenderColor::Yellow);
    assert_eq!(sender_color("Tool"), SenderColor::Magenta);
    assert_eq!(sender_color("Error"), SenderColor::Red);
    assert_eq!(sender_color("Other"), SenderColor::White);
}

#[test]
fn lines_are_routed() {
    assert!(matches!(route_prompt("hello there"), CommandRoute::Chat(p) if p == "hello there"));
    match route_prompt("/commit-push-pr  fix   the tests") {
        CommandRoute::Generate { notice, kind, args } => {
            assert_eq!(notice, "Executing /commit-push-pr command...");
            assert_eq!(kind, PromptKind::CommitPushPr);
            assert_eq!(args, "fix the tests");
        },
        _ => panic!("expected a prompt command"),
    }
    assert!(matches!(route_prompt("/commit"), CommandRoute::Generate { kind: PromptKind::Commit, args, .. } if args.is_empty()));
    assert!(matches!(route_prompt("/review 42"), CommandRoute::Generate { kind: PromptKind::Review, args, .. } if args == "42"));
    assert!(matches!(route_prompt("/security-review"), CommandRoute::Generate { kind: PromptKind::SecurityReview, .. }));
    assert!(matches!(route_prompt("/help"), CommandRoute::Reply(t) if t == HELP_TEXT));
    assert!(matches!(route_prompt("/clear"), CommandRoute::Reply(t) if t == "Conversation cleared."));
    assert!(matches!(route_prompt("/compact now"), CommandRoute::Reply(t) if t == "Conversation compacted."));
    assert!(matches!(route_prompt("/nope x"), CommandRoute::Reply(t) if t == "Unknown command: /nope"));
    assert!(matches!(route_prompt("/"), CommandRoute::Reply(t) if t == "Unknown command: /"));
}

#[test]
fn failure_texts() {
    assert_eq!(prompt_failure(PromptKind::Commit, "no git"), "Error generating commit prompt: no git");
    assert_eq!(prompt_failure(PromptKind::SecurityReview, "x"), "Error generating security-review prompt: x");
    assert_eq!(agent_failure("timeout"), "Failed to run agent: timeout");
}

#[test]
fn repl_lines() {
    assert!(matches!(repl_action("   \n"), ReplAction::Skip));
    assert!(matches!(repl_action(" /quit\n"), ReplAction::Quit));
    assert!(matches!(repl_action("/exit"), ReplAction::Quit));
    assert!(matches!(repl_action("  explain this \n"), ReplAction::Run(p) if p == "explain this"));
}

#[test]
fn painted_rectangles() {
    assert_eq!(node_rect(2, 3, 10, 20, 5, 6), CellRect { x: 12, y: 23, width: 5, height: 6 });
    let r = CellRect { x: 1, y: 1, width: 10, height: 1 };
    assert_eq!(content_rect(r, true), CellRect { x: 2, y: 2, width: 8, height: 0 });
    assert_eq!(content_rect(r, false), r);
}

//! Commands that act on the conversation: `/brief`, `/clear` and `/compact`.

use vstd::prelude::*;
use crate::api::{ContentBlockView, Message, MessageView, Role, message_views};
use crate::text::{decimal_seq, u64_to_string};

verus! {

/// The system reminder injected when brief mode changes.
pub open spec fn brief_reminder(enabled: bool) -> Seq<char> {
    if enabled {
        "<system-reminder>\nBrief mode is now enabled. Use the Brief tool for all user-facing output — plain text outside it is hidden from the user's view.\n</system-reminder>"@
    } else {
        "<system-reminder>\nBrief mode is now disabled. The Brief tool is no longer available — reply with plain text.\n</system-reminder>"@
    }
}

/// The status line shown when brief mode changes.
pub open spec fn brief_display(enabled: bool) -> Seq<char> {
    if enabled { "Brief-only mode enabled"@ } else { "Brief-only mode disabled"@ }
}

/// Handles `/brief`.
pub struct BriefCommand;

impl BriefCommand {
    /// Toggles brief mode: returns the new state, the message to display and
    /// the reminder to inject into the model's context.
    pub fn toggle_brief_mode(current_state: bool) -> (r: Result<(bool, String, String), String>)
        ensures
            r is Ok,
            r->Ok_0.0 == !current_state,
            r->Ok_0.1@ == brief_display(!current_state),
            r->Ok_0.2@ == brief_reminder(!current_state),
    {
        let new_state = !current_state;
        let reminder = if new_state {
            String::from_str("<system-reminder>\nBrief mode is now enabled. Use the Brief tool for all user-facing output — plain text outside it is hidden from the user's view.\n</system-reminder>")
        } else {
            String::from_str("<system-reminder>\nBrief mode is now disabled. The Brief tool is no longer available — reply with plain text.\n</system-reminder>")
        };
        let display = if new_state {
            String::from_str("Brief-only mode enabled")
        } else {
            String::from_str("Brief-only mode disabled")
        };
        Ok((new_state, display, reminder))
    }
}

/// Handles `/clear`.
pub struct ClearCommand;

impl ClearCommand {
    /// Empties the conversation and reports how many messages were removed.
    pub fn handle_clear(history: &mut Vec<Message>) -> (r: Result<String, String>)
        ensures
            final(history)@.len() == 0,
            r is Ok,
            r->Ok_0@ == if old(history)@.len() == 0 {
                "Conversation is already empty."@
            } else {
                "Conversation cleared (removed "@ + decimal_seq(old(history)@.len()) + " messages)."@
            },
    {
        let cleared_count = history.len();
        if cleared_count == 0 {
            return Ok(String::from_str("Conversation is already empty."));
        }
        history.clear();
        let mut r = String::from_str("Conversation cleared (removed ");
        r.append(u64_to_string(cleared_count as u64).as_str());
        r.append(" messages).");
        Ok(r)
    }
}

/// The placeholder that stands for the removed messages.
pub open spec fn compact_summary(args: Seq<char>) -> Seq<char> {
    if args.len() == 0 {
        "[System: Conversation compacted. Older messages have been removed to save tokens.]"@
    } else {
        "[System: Conversation compacted with instructions: '"@ + args + "']"@
    }
}

/// Handles `/compact`.
pub struct CompactCommand;

impl CompactCommand {
    /// Keeps the first message and the last two, replacing everything in
    /// between by one assistant message that says the conversation was
    /// compacted.
    pub fn handle_compact(args: &str, history: &mut Vec<Message>) -> (r: Result<String, String>)
        ensures
            r is Ok,
            ({
                let h = message_views(old(history)@);
                if h.len() <= 2 {
                    &&& r->Ok_0@ == "No messages to compact. Conversation is already short."@
                    &&& message_views(final(history)@) == h
                } else if h.len() == 3 {
                    &&& r->Ok_0@ == "Conversation too short to compact."@
                    &&& message_views(final(history)@) == h
                } else {
                    &&& r->Ok_0@ == "Compacted 2 messages."@
                    &&& message_views(final(history)@) == seq![
                        h[0],
                        MessageView {
                            role: Role::Assistant,
                            content: seq![ContentBlockView::Text { text: compact_summary(args@) }],
                        },
                        h[h.len() - 2],
                        h[h.len() - 1],
                    ]
                }
            }),
    {
        if history.len() <= 2 {
            return Ok(String::from_str("No messages to compact. Conversation is already short."));
        }
        let retain_count: usize = 2;
        if history.len() > retain_count + 1 {
            let ghost h = message_views(history@);
            let mut old_history: Vec<Message> = Vec::new();
            std::mem::swap(&mut old_history, history);
            let len = old_history.len();
            let mut recent = old_history.split_off(len - retain_count);
            let first = old_history.remove(0);
            let summary_text = if args.is_empty() {
                String::from_str("[System: Conversation compacted. Older messages have been removed to save tokens.]")
            } else {
                let mut t = String::from_str("[System: Conversation compacted with instructions: '");
                t.append(args);
                t.append("']");
                t
            };
            history.push(first);
            history.push(Message::text(Role::Assistant, summary_text));
            history.append(&mut recent);
            assert(message_views(history@) =~= seq![
                h[0],
                MessageView {
                    role: Role::Assistant,
                    content: seq![ContentBlockView::Text { text: compact_summary(args@) }],
                },
                h[h.len() - 2],
                h[h.len() - 1],
            ]);
            Ok(String::from_str("Compacted 2 messages."))
        } else {
            Ok(String::from_str("Conversation too short to compact."))
        }
    }
}

} // verus!

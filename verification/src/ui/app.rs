//! The state of the conversation screen and how events change it.

use vstd::prelude::*;
use crate::text::{join_seq, join_strings, trim, trim_seq};

verus! {

/// What the assistant is doing.
#[derive(Clone, Copy, Debug, PartialEq, Eq, Structural)]
pub enum AppState {
    Input,
    Thinking,
    ExecutingTool,
}

/// One line of the conversation: who said it and what.
pub struct Message {
    pub sender: String,
    pub text: String,
}

/// The conversation screen. `selected` is the highlighted message.
pub struct App {
    pub state: AppState,
    pub messages: Vec<Message>,
    pub selected: Option<usize>,
    pub should_quit: bool,
    pub current_tool: Option<String>,
}

/// Mathematical value of the screen.
pub struct AppView {
    pub state: AppState,
    pub messages: Seq<(Seq<char>, Seq<char>)>,
    pub selected: Option<usize>,
    pub should_quit: bool,
    pub current_tool: Option<Seq<char>>,
}

/// Views of a list of messages.
pub open spec fn message_pairs(v: Seq<Message>) -> Seq<(Seq<char>, Seq<char>)> {
    v.map_values(|m: Message| (m.sender@, m.text@))
}

impl View for App {
    type V = AppView;

    open spec fn view(&self) -> AppView {
        AppView {
            state: self.state,
            messages: message_pairs(self.messages@),
            selected: self.selected,
            should_quit: self.should_quit,
            current_tool: crate::text::opt_view(self.current_tool),
        }
    }
}

/// The greeting the conversation starts with.
pub const WELCOME: &'static str = "Welcome to Assistant Code (Rust Edition)!";

/// The screen after `sender` said `text`: the message is added and highlighted.
pub open spec fn with_message(v: AppView, sender: Seq<char>, text: Seq<char>) -> AppView {
    AppView {
        messages: v.messages.push((sender, text)),
        selected: Some(v.messages.len() as usize),
        ..v
    }
}

/// An event sent by the running agent.
pub enum AgentEvent {
    /// The assistant said something.
    Message(String),
    /// The assistant is thinking.
    Thinking,
    /// A tool is called with these (JSON) arguments.
    ToolCall(String, String),
    /// A tool finished.
    ToolResult(String, Result<String, String>),
    /// The turn failed.
    Error(String),
    /// The turn is over.
    Finished,
}

/// The line shown for a finished tool.
pub open spec fn tool_result_line(name: Seq<char>, res: Result<Seq<char>, Seq<char>>) -> Seq<char> {
    match res {
        Ok(v) => "Result ["@ + name + "]: "@ + v,
        Err(e) => "Error ["@ + name + "]: "@ + e,
    }
}

/// The screen after an agent event.
pub open spec fn after_event(v: AppView, e: AgentEvent) -> AppView {
    match e {
        AgentEvent::Message(t) => with_message(v, "Assistant"@, t@),
        AgentEvent::Thinking => AppView { state: AppState::Thinking, ..v },
        AgentEvent::ToolCall(name, input) => AppView {
            state: AppState::ExecutingTool,
            ..with_message(v, "Tool"@, "Call: "@ + name@ + " ("@ + input@ + ")"@)
        },
        AgentEvent::ToolResult(name, res) => AppView {
            state: AppState::Thinking,
            ..with_message(v, "Tool"@, tool_result_line(name@, match res { Ok(x) => Ok(x@), Err(x) => Err(x@) }))
        },
        AgentEvent::Error(t) => AppView { state: AppState::Input, ..with_message(v, "Error"@, t@) },
        AgentEvent::Finished => AppView { state: AppState::Input, ..v },
    }
}

/// A turn that ends, finished or failed, gives the input back to the user;
/// every message event is shown as the conversation's last, highlighted line.
pub proof fn law_turn_end_returns_input(v: AppView, e: AgentEvent)
    ensures
        (e is Finished || e is Error) ==> after_event(v, e).state == AppState::Input,
        !(e is Thinking || e is Finished) ==> after_event(v, e).messages.len() == v.messages.len() + 1
            && after_event(v, e).selected == Some(v.messages.len() as usize),
        (e is Thinking || e is Finished) ==> after_event(v, e).messages == v.messages,
{
}

/// A key press, as far as the screen tells keys apart.
#[derive(Clone, Copy, Debug, PartialEq, Eq, Structural)]
pub enum KeyAction {
    Escape,
    Enter,
    Other,
}

/// What the caller must do after a key press.
pub enum KeyOutcome {
    /// Nothing more.
    Handled,
    /// Clear the input box and run this prompt.
    Submit(String),
    /// Hand the key to the input box.
    ForwardToInput,
}

/// The prompt typed in the input box: its lines joined and trimmed.
pub open spec fn typed_prompt(lines: Seq<Seq<char>>) -> Seq<char> {
    trim_seq(join_seq(lines, "\n"@))
}

/// The screen after a key press, with the input box holding `lines`.
pub open spec fn after_key(v: AppView, key: KeyAction, lines: Seq<Seq<char>>) -> AppView {
    match key {
        KeyAction::Escape => AppView { should_quit: true, ..v },
        KeyAction::Enter => if v.state == AppState::Input && typed_prompt(lines).len() > 0 {
            AppView { state: AppState::Thinking, ..with_message(v, "User"@, typed_prompt(lines)) }
        } else {
            v
        },
        KeyAction::Other => v,
    }
}

/// The status bar text for a state.
pub open spec fn status_line(s: AppState) -> Seq<char> {
    match s {
        AppState::Input => " Ready"@,
        AppState::Thinking => " \u{1f916} Assistant is thinking..."@,
        AppState::ExecutingTool => " \u{1f6e0}\u{fe0f} Executing Tool..."@,
    }
}

/// The color a sender's name is shown in.
#[derive(Clone, Copy, Debug, PartialEq, Eq, Structural)]
pub enum SenderColor {
    Blue,
    Green,
    Yellow,
    Magenta,
    Red,
    White,
}

/// The color of each sender.
pub open spec fn color_of(sender: Seq<char>) -> SenderColor {
    if sender == "User"@ {
        SenderColor::Blue
    } else if sender == "Assistant"@ {
        SenderColor::Green
    } else if sender == "System"@ {
        SenderColor::Yellow
    } else if sender == "Tool"@ {
        SenderColor::Magenta
    } else if sender == "Error"@ {
        SenderColor::Red
    } else {
        SenderColor::White
    }
}

/// The color `sender`'s name is shown in.
pub fn sender_color(sender: &str) -> (r: SenderColor)
    ensures
        r == color_of(sender@),
{
    if crate::text::str_eq(sender, "User") {
        SenderColor::Blue
    } else if crate::text::str_eq(sender, "Assistant") {
        SenderColor::Green
    } else if crate::text::str_eq(sender, "System") {
        SenderColor::Yellow
    } else if crate::text::str_eq(sender, "Tool") {
        SenderColor::Magenta
    } else if crate::text::str_eq(sender, "Error") {
        SenderColor::Red
    } else {
        SenderColor::White
    }
}

/// The status bar text.
pub fn status_text(s: AppState) -> (r: &'static str)
    ensures
        r@ == status_line(s),
{
    match s {
        AppState::Input => " Ready",
        AppState::Thinking => " \u{1f916} Assistant is thinking...",
        AppState::ExecutingTool => " \u{1f6e0}\u{fe0f} Executing Tool...",
    }
}

/// The title of the input box.
pub const INPUT_TITLE: &'static str = " Ask Assistant (Press Enter to send, Esc to quit) ";

/// The title of the conversation list.
pub const HISTORY_TITLE: &'static str = " Conversation ";

impl App {
    /// The screen at start: waiting for input, with the greeting.
    pub fn new() -> (r: App)
        ensures
            r@ == (AppView {
                state: AppState::Input,
                messages: seq![("System"@, WELCOME@)],
                selected: None,
                should_quit: false,
                current_tool: None,
            }),
    {
        let mut messages: Vec<Message> = Vec::new();
        messages.push(Message { sender: String::from_str("System"), text: String::from_str(WELCOME) });
        let r = App { state: AppState::Input, messages, selected: None, should_quit: false, current_tool: None };
        assert(r@.messages =~= seq![("System"@, WELCOME@)]);
        r
    }

    /// Adds what `sender` said and highlights it.
    pub fn add_message(&mut self, sender: &str, text: &str)
        requires
            old(self).messages.len() < usize::MAX,
        ensures
            final(self)@ == with_message(old(self)@, sender@, text@),
    {
        let ghost before = self.messages@;
        self.messages.push(Message { sender: String::from_str(sender), text: String::from_str(text) });
        assert(message_pairs(self.messages@) =~= message_pairs(before).push((sender@, text@)));
        self.selected = Some(self.messages.len() - 1);
    }

    /// Applies an event of the running agent.
    pub fn handle_agent_event(&mut self, event: AgentEvent)
        requires
            old(self).messages.len() < usize::MAX,
        ensures
            final(self)@ == after_event(old(self)@, event),
    {
        match event {
            AgentEvent::Message(t) => {
                self.add_message("Assistant", t.as_str());
            },
            AgentEvent::Thinking => {
                self.state = AppState::Thinking;
            },
            AgentEvent::ToolCall(name, input) => {
                let mut line = String::from_str("Call: ");
                line.append(name.as_str());
                line.append(" (");
                line.append(input.as_str());
                line.append(")");
                self.add_message("Tool", line.as_str());
                self.state = AppState::ExecutingTool;
            },
            AgentEvent::ToolResult(name, res) => {
                let line = match res {
                    Ok(v) => {
                        let mut s = String::from_str("Result [");
                        s.append(name.as_str());
                        s.append("]: ");
                        s.append(v.as_str());
                        s
                    },
                    Err(e) => {
                        let mut s = String::from_str("Error [");
                        s.append(name.as_str());
                        s.append("]: ");
                        s.append(e.as_str());
                        s
                    },
                };
                self.add_message("Tool", line.as_str());
                self.state = AppState::Thinking;
            },
            AgentEvent::Error(t) => {
                self.add_message("Error", t.as_str());
                self.state = AppState::Input;
            },
            AgentEvent::Finished => {
                self.state = AppState::Input;
            },
        }
    }

    /// Applies a key press; `lines` is what the input box holds.
    pub fn handle_key(&mut self, key: KeyAction, lines: &Vec<String>) -> (r: KeyOutcome)
        requires
            old(self).messages.len() < usize::MAX,
        ensures
            final(self)@ == after_key(old(self)@, key, lines.deep_view()),
            match r {
                KeyOutcome::Submit(p) => key == KeyAction::Enter && old(self)@.state == AppState::Input
                    && p@ == typed_prompt(lines.deep_view()) && p@.len() > 0,
                KeyOutcome::ForwardToInput => key == KeyAction::Other && old(self)@.state == AppState::Input,
                KeyOutcome::Handled => !(key == KeyAction::Other && old(self)@.state == AppState::Input)
                    && !(key == KeyAction::Enter && old(self)@.state == AppState::Input
                        && typed_prompt(lines.deep_view()).len() > 0),
            },
    {
        match key {
            KeyAction::Escape => {
                self.should_quit = true;
                KeyOutcome::Handled
            },
            KeyAction::Enter => {
                if self.state == AppState::Input {
                    let prompt = trim(join_strings(lines, "\n").as_str());
                    if !prompt.as_str().is_empty() {
                        self.add_message("User", prompt.as_str());
                        self.state = AppState::Thinking;
                        return KeyOutcome::Submit(prompt);
                    }
                }
                KeyOutcome::Handled
            },
            KeyAction::Other => {
                if self.state == AppState::Input {
                    KeyOutcome::ForwardToInput
                } else {
                    KeyOutcome::Handled
                }
            },
        }
    }
}

} // verus!

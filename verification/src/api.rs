//! Conversation messages exchanged with the model, and the API client's settings.

use vstd::prelude::*;

verus! {

/// Who wrote a message.
#[derive(Clone, Copy, Debug, PartialEq, Eq, Structural)]
pub enum Role {
    User,
    Assistant,
}

/// A block of message content.
pub enum ContentBlock {
    Text { text: String },
}

/// Mathematical value of a content block.
pub enum ContentBlockView {
    Text { text: Seq<char> },
}

impl View for ContentBlock {
    type V = ContentBlockView;

    open spec fn view(&self) -> ContentBlockView {
        match self {
            ContentBlock::Text { text } => ContentBlockView::Text { text: text@ },
        }
    }
}

/// A conversation message.
pub struct Message {
    pub role: Role,
    pub content: Vec<ContentBlock>,
}

/// Mathematical value of a message.
pub struct MessageView {
    pub role: Role,
    pub content: Seq<ContentBlockView>,
}

impl View for Message {
    type V = MessageView;

    open spec fn view(&self) -> MessageView {
        MessageView { role: self.role, content: self.content@.map_values(|b: ContentBlock| b@) }
    }
}

/// Views of a list of messages.
pub open spec fn message_views(v: Seq<Message>) -> Seq<MessageView> {
    v.map_values(|m: Message| m@)
}

impl Message {
    /// A message holding one text block.
    pub fn text(role: Role, text: String) -> (m: Message)
        ensures
            m@ == (MessageView { role, content: seq![ContentBlockView::Text { text: text@ }] }),
    {
        let mut content: Vec<ContentBlock> = Vec::new();
        let ghost t = text@;
        content.push(ContentBlock::Text { text });
        let m = Message { role, content };
        assert(m@.content =~= seq![ContentBlockView::Text { text: t }]);
        m
    }
}

/// Settings of the model API client.
pub struct Client {
    pub api_key: String,
}

impl Client {
    /// A client that authenticates with `api_key`.
    pub fn new(api_key: String) -> (c: Client)
        ensures
            c.api_key == api_key,
    {
        Client { api_key }
    }
}

} // verus!

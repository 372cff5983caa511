//! The canonical, provider-agnostic conversation model: a message is a role,
//! a creation timestamp and an ordered list of content items — text, images,
//! tool-call requests and tool-call results.

use vstd::prelude::*;
use vstd::string::*;

use crate::content::{Content, ContentView, TextContent, TextContentView, ImageContent,
    ImageContentView};
use crate::errors::{AgentError, AgentErrorView};
use crate::role::Role;
use crate::tool::{ToolCall, ToolCallView};

verus! {

/// A tool invocation the model asked for, or the failure recorded in its
/// place.
#[derive(Debug)]
pub struct ToolRequest {
    pub id: String,
    pub tool_call: Result<ToolCall, AgentError>,
}

/// The runtime's answer to a tool invocation, or the failure the tool
/// reported.
#[derive(Debug)]
pub struct ToolResponse {
    pub id: String,
    pub tool_result: Result<Vec<Content>, AgentError>,
}

/// One content item of a canonical message.
#[derive(Debug)]
pub enum MessageContent {
    Text(TextContent),
    Image(ImageContent),
    ToolRequest(ToolRequest),
    ToolResponse(ToolResponse),
}

/// One turn of the conversation.
#[derive(Debug)]
pub struct Message {
    pub role: Role,
    pub created: i64,
    pub content: Vec<MessageContent>,
}

pub struct ToolRequestView {
    pub id: Seq<char>,
    pub tool_call: Result<ToolCallView, AgentErrorView>,
}

pub struct ToolResponseView {
    pub id: Seq<char>,
    pub tool_result: Result<Seq<ContentView>, AgentErrorView>,
}

pub enum MessageContentView {
    Text(TextContentView),
    Image(ImageContentView),
    ToolRequest(ToolRequestView),
    ToolResponse(ToolResponseView),
}

pub struct MessageView {
    pub role: Role,
    pub created: i64,
    pub content: Seq<MessageContentView>,
}

impl View for ToolRequest {
    type V = ToolRequestView;

    open spec fn view(&self) -> ToolRequestView {
        ToolRequestView {
            id: self.id@,
            tool_call: match self.tool_call {
                Ok(ref tc) => Ok(tc@),
                Err(ref e) => Err(e@),
            },
        }
    }
}

impl View for ToolResponse {
    type V = ToolResponseView;

    open spec fn view(&self) -> ToolResponseView {
        ToolResponseView {
            id: self.id@,
            tool_result: match self.tool_result {
                Ok(ref contents) => Ok(contents.deep_view()),
                Err(ref e) => Err(e@),
            },
        }
    }
}

impl View for MessageContent {
    type V = MessageContentView;

    open spec fn view(&self) -> MessageContentView {
        match self {
            MessageContent::Text(t) => MessageContentView::Text(t@),
            MessageContent::Image(im) => MessageContentView::Image(im@),
            MessageContent::ToolRequest(tr) => MessageContentView::ToolRequest(tr@),
            MessageContent::ToolResponse(tr) => MessageContentView::ToolResponse(tr@),
        }
    }
}

impl DeepView for MessageContent {
    type V = MessageContentView;

    open spec fn deep_view(&self) -> MessageContentView {
        self.view()
    }
}

impl View for Message {
    type V = MessageView;

    open spec fn view(&self) -> MessageView {
        MessageView { role: self.role, created: self.created, content: self.content.deep_view() }
    }
}

impl DeepView for Message {
    type V = MessageView;

    open spec fn deep_view(&self) -> MessageView {
        self.view()
    }
}

impl MessageContent {
    /// A plain unannotated text item.
    pub fn text(text: &str) -> (r: MessageContent)
        ensures
            r@ == MessageContentView::Text(TextContentView { text: text@, annotations: None }),
    {
        MessageContent::Text(TextContent { text: text.to_owned(), annotations: None })
    }
}

impl Message {
    /// An empty user turn. The creation timestamp starts at zero; callers
    /// that care about wall-clock times set `created` themselves.
    pub fn user() -> (r: Message)
        ensures
            r@ == (MessageView { role: Role::User, created: 0i64, content: Seq::empty() }),
    {
        let m = Message { role: Role::User, created: 0, content: Vec::new() };
        proof {
            assert(m@.content =~= Seq::<MessageContentView>::empty());
        }
        m
    }

    /// An empty assistant turn, as `user`.
    pub fn assistant() -> (r: Message)
        ensures
            r@ == (MessageView { role: Role::Assistant, created: 0i64, content: Seq::empty() }),
    {
        let m = Message { role: Role::Assistant, created: 0, content: Vec::new() };
        proof {
            assert(m@.content =~= Seq::<MessageContentView>::empty());
        }
        m
    }

    /// The same message with a text item appended.
    pub fn with_text(self, text: &str) -> (r: Message)
        ensures
            r@.role == self@.role,
            r@.created == self@.created,
            r@.content == self@.content.push(
                MessageContentView::Text(TextContentView { text: text@, annotations: None }),
            ),
    {
        let mut m = self;
        m.content.push(MessageContent::text(text));
        m
    }

    /// The same message with a tool-call request appended.
    pub fn with_tool_request(self, id: &str, tool_call: Result<ToolCall, AgentError>) -> (r:
        Message)
        ensures
            r@.role == self@.role,
            r@.created == self@.created,
            r@.content == self@.content.push(
                MessageContentView::ToolRequest(
                    ToolRequestView {
                        id: id@,
                        tool_call: match tool_call {
                            Ok(tc) => Ok(tc@),
                            Err(e) => Err(e@),
                        },
                    },
                ),
            ),
    {
        let mut m = self;
        m.content.push(
            MessageContent::ToolRequest(ToolRequest { id: id.to_owned(), tool_call }),
        );
        m
    }

    /// The same message with a tool-call result appended.
    pub fn with_tool_response(self, id: &str, tool_result: Result<Vec<Content>, AgentError>) -> (r:
        Message)
        ensures
            r@.role == self@.role,
            r@.created == self@.created,
            r@.content == self@.content.push(
                MessageContentView::ToolResponse(
                    ToolResponseView {
                        id: id@,
                        tool_result: match tool_result {
                            Ok(ref contents) => Ok(contents.deep_view()),
                            Err(ref e) => Err(e@),
                        },
                    },
                ),
            ),
    {
        let mut m = self;
        m.content.push(
            MessageContent::ToolResponse(ToolResponse { id: id.to_owned(), tool_result }),
        );
        m
    }
}

} // verus!

//! The provider-independent conversation model: messages, their content
//! parts, tool calls and tool results.
//!
//! Which part kinds a role may hold is fixed by the types: only an assistant
//! message can carry a tool call.

use vstd::prelude::*;
use crate::json::{Value, ValueView};
use crate::one_or_many::OneOrMany;

verus! {

/// A run of plain text.
#[derive(Debug, Clone, PartialEq, Eq)]
pub struct Text {
    pub text: String,
}

/// An image, or other media, handed over as encoded data.
#[derive(Debug, Clone, PartialEq, Eq)]
pub struct Image {
    pub data: String,
    pub media_type: Option<String>,
}

/// The function that a tool call names, with its arguments.
#[derive(Debug, Clone, PartialEq, Eq)]
pub struct ToolFunction {
    pub name: String,
    pub arguments: Value,
}

/// A request, made by a model, to run a tool.
#[derive(Debug, Clone, PartialEq, Eq)]
pub struct ToolCall {
    pub id: String,
    pub function: ToolFunction,
}

/// One part of what a tool gave back.
#[derive(Debug, Clone, PartialEq, Eq)]
pub enum ToolResultContent {
    Text(Text),
    Image(Image),
}

/// What a tool gave back for the call with the same `id`.
#[derive(Debug, Clone, PartialEq, Eq)]
pub struct ToolResult {
    pub id: String,
    pub content: OneOrMany<ToolResultContent>,
}

/// One part of a user message.
#[derive(Debug, Clone, PartialEq, Eq)]
pub enum UserContent {
    Text(Text),
    ToolResult(ToolResult),
    Image(Image),
}

/// One part of an assistant message.
#[derive(Debug, Clone, PartialEq, Eq)]
pub enum AssistantContent {
    Text(Text),
    ToolCall(ToolCall),
}

/// One turn of a conversation.
#[derive(Debug, Clone, PartialEq, Eq)]
#[allow(inconsistent_fields)]
pub enum Message {
    User { content: OneOrMany<UserContent> },
    Assistant { content: OneOrMany<AssistantContent> },
    Tool { result: ToolResult },
    System { text: String },
}

/// Why a message could not be written in a provider's format.
#[derive(Debug, Clone, PartialEq, Eq)]
pub enum MessageError {
    ConversionError(String),
}

/// The mathematical content of an [`AssistantContent`].
pub enum AssistantContentView {
    Text(Seq<char>),
    ToolCall { id: Seq<char>, name: Seq<char>, arguments: ValueView },
}

impl View for AssistantContent {
    type V = AssistantContentView;

    open spec fn view(&self) -> AssistantContentView {
        match *self {
            AssistantContent::Text(t) => AssistantContentView::Text(t.text@),
            AssistantContent::ToolCall(c) => AssistantContentView::ToolCall {
                id: c.id@,
                name: c.function.name@,
                arguments: c.function.arguments@,
            },
        }
    }
}

impl AssistantContent {
    /// A text part.
    pub fn text(text: String) -> (part: Self)
        ensures
            part@ == AssistantContentView::Text(text@),
    {
        AssistantContent::Text(Text { text })
    }

    /// A tool-call part.
    pub fn tool_call(id: String, name: String, arguments: Value) -> (part: Self)
        ensures
            part@ == (AssistantContentView::ToolCall { id: id@, name: name@, arguments: arguments@ }),
    {
        AssistantContent::ToolCall(ToolCall { id, function: ToolFunction { name, arguments } })
    }
}

impl UserContent {
    /// A text part.
    pub fn text(text: String) -> (part: Self)
        ensures
            part == UserContent::Text(Text { text }),
    {
        UserContent::Text(Text { text })
    }
}

impl Message {
    /// A user message of one text part.
    pub fn user(text: String) -> (message: Self)
        ensures
            message matches Message::User { content } && content@ == seq![
                UserContent::Text(Text { text }),
            ],
    {
        Message::User { content: OneOrMany::one(UserContent::Text(Text { text })) }
    }

    /// An assistant message of one text part.
    pub fn assistant(text: String) -> (message: Self)
        ensures
            message matches Message::Assistant { content } && content@ == seq![
                AssistantContent::Text(Text { text }),
            ],
    {
        Message::Assistant { content: OneOrMany::one(AssistantContent::Text(Text { text })) }
    }
}

impl MessageError {
    /// The text that the error carries.
    pub open spec fn reason(self) -> Seq<char> {
        match self {
            MessageError::ConversionError(text) => text@,
        }
    }
}

} // verus!

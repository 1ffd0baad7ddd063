//! Chat messages in Cohere's format, how they are written as JSON, and how
//! a provider-independent message is written as Cohere messages.
//!
//! Cohere's chat takes text only, and in the history only what the user
//! said: a user message becomes one Cohere message for each of its parts.
//! Anything else is refused with an error, never dropped.

use vstd::prelude::*;
use crate::json::{
    copy_items, items_view, lemma_items_view, push_member, Member, Value, ValueView,
};
use crate::message;
use crate::message::{MessageError, UserContent};
use crate::one_or_many::OneOrMany;
use crate::views::views;

verus! {

/// A tool call as Cohere writes it: the tool's name and its arguments.
#[derive(Debug, Clone, PartialEq, Eq)]
pub struct ToolCall {
    pub name: String,
    pub parameters: Value,
}

/// The outputs of a tool for one call.
#[derive(Debug, Clone, PartialEq, Eq)]
pub struct ToolResult {
    pub call: ToolCall,
    pub outputs: Vec<Value>,
}

/// One message of a chat with Cohere, tagged on the wire by its role.
#[derive(Debug, Clone, PartialEq, Eq)]
#[allow(inconsistent_fields)]
pub enum Message {
    User { message: String, tool_calls: Vec<ToolCall> },
    Chatbot { message: String, tool_calls: Vec<ToolCall> },
    Tool { tool_results: Vec<ToolResult> },
    /// Cohere advises against messages of this role.
    System { content: String, tool_calls: Vec<ToolCall> },
}

/// The mathematical content of a [`ToolCall`].
pub struct ToolCallView {
    pub name: Seq<char>,
    pub parameters: ValueView,
}

/// The mathematical content of a [`ToolResult`].
pub struct ToolResultView {
    pub call: ToolCallView,
    pub outputs: Seq<ValueView>,
}

/// The mathematical content of a [`Message`].
#[allow(inconsistent_fields)]
pub enum MessageView {
    User { message: Seq<char>, tool_calls: Seq<ToolCallView> },
    Chatbot { message: Seq<char>, tool_calls: Seq<ToolCallView> },
    Tool { tool_results: Seq<ToolResultView> },
    System { content: Seq<char>, tool_calls: Seq<ToolCallView> },
}

impl View for ToolCall {
    type V = ToolCallView;

    open spec fn view(&self) -> ToolCallView {
        ToolCallView { name: self.name@, parameters: self.parameters@ }
    }
}

impl View for ToolResult {
    type V = ToolResultView;

    open spec fn view(&self) -> ToolResultView {
        ToolResultView { call: self.call@, outputs: items_view(self.outputs@) }
    }
}

impl View for Message {
    type V = MessageView;

    open spec fn view(&self) -> MessageView {
        match *self {
            Message::User { message, tool_calls } => MessageView::User {
                message: message@,
                tool_calls: views(tool_calls@),
            },
            Message::Chatbot { message, tool_calls } => MessageView::Chatbot {
                message: message@,
                tool_calls: views(tool_calls@),
            },
            Message::Tool { tool_results } => MessageView::Tool {
                tool_results: views(tool_results@),
            },
            Message::System { content, tool_calls } => MessageView::System {
                content: content@,
                tool_calls: views(tool_calls@),
            },
        }
    }
}

/// A tool call as JSON.
pub open spec fn tool_call_json(call: ToolCallView) -> ValueView {
    ValueView::Object(
        Map::empty().insert("name"@, ValueView::String(call.name)).insert(
            "parameters"@,
            call.parameters,
        ),
    )
}

/// A list of tool calls as a JSON array.
pub open spec fn tool_calls_json(calls: Seq<ToolCallView>) -> ValueView {
    ValueView::Array(Seq::new(calls.len(), |i: int| tool_call_json(calls[i])))
}

/// A tool result as JSON.
pub open spec fn tool_result_json(result: ToolResultView) -> ValueView {
    ValueView::Object(
        Map::empty().insert("call"@, tool_call_json(result.call)).insert(
            "outputs"@,
            ValueView::Array(result.outputs),
        ),
    )
}

/// A list of tool results as a JSON array.
pub open spec fn tool_results_json(results: Seq<ToolResultView>) -> ValueView {
    ValueView::Array(Seq::new(results.len(), |i: int| tool_result_json(results[i])))
}

/// A message as JSON: an object with the role, in capitals, under `role`,
/// beside the fields of the message.
pub open spec fn message_json(m: MessageView) -> ValueView {
    match m {
        MessageView::User { message, tool_calls } => ValueView::Object(
            Map::empty().insert("role"@, ValueView::String("USER"@)).insert(
                "message"@,
                ValueView::String(message),
            ).insert("tool_calls"@, tool_calls_json(tool_calls)),
        ),
        MessageView::Chatbot { message, tool_calls } => ValueView::Object(
            Map::empty().insert("role"@, ValueView::String("CHATBOT"@)).insert(
                "message"@,
                ValueView::String(message),
            ).insert("tool_calls"@, tool_calls_json(tool_calls)),
        ),
        MessageView::Tool { tool_results } => ValueView::Object(
            Map::empty().insert("role"@, ValueView::String("TOOL"@)).insert(
                "tool_results"@,
                tool_results_json(tool_results),
            ),
        ),
        MessageView::System { content, tool_calls } => ValueView::Object(
            Map::empty().insert("role"@, ValueView::String("SYSTEM"@)).insert(
                "content"@,
                ValueView::String(content),
            ).insert("tool_calls"@, tool_calls_json(tool_calls)),
        ),
    }
}

/// A list of messages as a JSON array.
pub open spec fn messages_json(messages: Seq<MessageView>) -> ValueView {
    ValueView::Array(Seq::new(messages.len(), |i: int| message_json(messages[i])))
}

impl ToolCall {
    /// The call as JSON.
    pub fn to_json(&self) -> (json: Value)
        ensures
            json@ == tool_call_json(self@),
    {
        let mut members: Vec<Member> = Vec::new();
        push_member(&mut members, "name", Value::String(self.name.clone()));
        push_member(&mut members, "parameters", self.parameters.clone());
        Value::Object(members)
    }
}

/// The calls as a JSON array.
pub fn tool_calls_to_json(calls: &Vec<ToolCall>) -> (json: Value)
    ensures
        json@ == tool_calls_json(views(calls@)),
{
    let mut out: Vec<Value> = Vec::new();
    let mut i: usize = 0;
    while i < calls.len()
        invariant
            i <= calls.len(),
            out.len() == i,
            forall|k: int| 0 <= k < i ==> (#[trigger] out[k])@ == tool_call_json(calls[k]@),
        decreases calls.len() - i,
    {
        out.push(calls[i].to_json());
        i = i + 1;
    }
    proof {
        lemma_items_view(out@, tool_calls_json(views(calls@))->Array_0);
    }
    Value::Array(out)
}

impl ToolResult {
    /// The result as JSON.
    pub fn to_json(&self) -> (json: Value)
        ensures
            json@ == tool_result_json(self@),
    {
        let mut members: Vec<Member> = Vec::new();
        push_member(&mut members, "call", self.call.to_json());
        push_member(&mut members, "outputs", Value::Array(copy_items(&self.outputs)));
        Value::Object(members)
    }
}

/// The results as a JSON array.
pub fn tool_results_to_json(results: &Vec<ToolResult>) -> (json: Value)
    ensures
        json@ == tool_results_json(views(results@)),
{
    let mut out: Vec<Value> = Vec::new();
    let mut i: usize = 0;
    while i < results.len()
        invariant
            i <= results.len(),
            out.len() == i,
            forall|k: int| 0 <= k < i ==> (#[trigger] out[k])@ == tool_result_json(results[k]@),
        decreases results.len() - i,
    {
        out.push(results[i].to_json());
        i = i + 1;
    }
    proof {
        lemma_items_view(out@, tool_results_json(views(results@))->Array_0);
    }
    Value::Array(out)
}

impl Message {
    /// The message as JSON.
    pub fn to_json(&self) -> (json: Value)
        ensures
            json@ == message_json(self@),
    {
        let mut members: Vec<Member> = Vec::new();
        match self {
            Message::User { message, tool_calls } => {
                push_member(&mut members, "role", Value::String("USER".to_owned()));
                push_member(&mut members, "message", Value::String(message.clone()));
                push_member(&mut members, "tool_calls", tool_calls_to_json(tool_calls));
            },
            Message::Chatbot { message, tool_calls } => {
                push_member(&mut members, "role", Value::String("CHATBOT".to_owned()));
                push_member(&mut members, "message", Value::String(message.clone()));
                push_member(&mut members, "tool_calls", tool_calls_to_json(tool_calls));
            },
            Message::Tool { tool_results } => {
                push_member(&mut members, "role", Value::String("TOOL".to_owned()));
                push_member(&mut members, "tool_results", tool_results_to_json(tool_results));
            },
            Message::System { content, tool_calls } => {
                push_member(&mut members, "role", Value::String("SYSTEM".to_owned()));
                push_member(&mut members, "content", Value::String(content.clone()));
                push_member(&mut members, "tool_calls", tool_calls_to_json(tool_calls));
            },
        }
        Value::Object(members)
    }
}

/// The messages as a JSON array.
pub fn messages_to_json(messages: &Vec<Message>) -> (json: Value)
    ensures
        json@ == messages_json(views(messages@)),
{
    let mut out: Vec<Value> = Vec::new();
    let mut i: usize = 0;
    while i < messages.len()
        invariant
            i <= messages.len(),
            out.len() == i,
            forall|k: int| 0 <= k < i ==> (#[trigger] out[k])@ == message_json(messages[k]@),
        decreases messages.len() - i,
    {
        out.push(messages[i].to_json());
        i = i + 1;
    }
    proof {
        lemma_items_view(out@, messages_json(views(messages@))->Array_0);
    }
    Value::Array(out)
}

/// Whether every part is text.
pub open spec fn all_text(parts: Seq<UserContent>) -> bool {
    forall|i: int| 0 <= i < parts.len() ==> #[trigger] parts[i] is Text
}

/// The text of a text part.
pub open spec fn part_text(part: UserContent) -> Seq<char> {
    part->Text_0.text@
}

/// Whether Cohere's chat can take the message: a user message of text only.
pub open spec fn representable(m: message::Message) -> bool {
    m matches message::Message::User { content } && all_text(content@)
}

/// The Cohere messages that the parts of a user message are written as: one
/// user message for each part, in order, with no tool calls.
pub open spec fn user_turns(parts: Seq<UserContent>) -> Seq<MessageView> {
    Seq::new(
        parts.len(),
        |i: int| MessageView::User { message: part_text(parts[i]), tool_calls: Seq::empty() },
    )
}

/// The Cohere messages that a representable message is written as.
pub open spec fn turns(m: message::Message) -> Seq<MessageView> {
    user_turns(m->User_content@)
}

/// What is reported of a message that is not representable.
pub open spec fn unsupported(m: message::Message) -> Seq<char> {
    if m is User {
        "Only text content is supported by Cohere"@
    } else {
        "Only user messages are supported by Cohere"@
    }
}

/// The texts of the parts, in order.
pub open spec fn part_texts(parts: Seq<UserContent>) -> Seq<Seq<char>> {
    Seq::new(parts.len(), |i: int| part_text(parts[i]))
}

/// The texts of the parts of a user message, where all of them are text.
pub fn text_parts(content: &OneOrMany<UserContent>) -> (texts: Option<Vec<String>>)
    ensures
        texts is Some <==> all_text(content@),
        texts matches Some(t) ==> views(t@) == part_texts(content@),
{
    let mut out: Vec<String> = Vec::new();
    match &content.first {
        UserContent::Text(t) => {
            out.push(t.text.clone());
        },
        _ => {
            assert(!(content@[0] is Text));
            return None;
        },
    }
    let mut i: usize = 0;
    while i < content.rest.len()
        invariant
            i <= content.rest.len(),
            out.len() == i + 1,
            forall|k: int| 0 <= k <= i ==> #[trigger] content@[k] is Text,
            forall|k: int| 0 <= k <= i ==> (#[trigger] out[k])@ == part_text(content@[k]),
        decreases content.rest.len() - i,
    {
        assert(content@[i + 1] == content.rest[i as int]);
        match &content.rest[i] {
            UserContent::Text(t) => {
                out.push(t.text.clone());
            },
            _ => {
                assert(!(content@[i + 1] is Text));
                return None;
            },
        }
        i = i + 1;
    }
    assert(views(out@) =~= part_texts(content@));
    Some(out)
}

impl Message {
    /// Writes a provider-independent message as Cohere messages.
    ///
    /// A user message of text parts gives one Cohere user message for each
    /// part, in order. A user message with any other part, and a message of
    /// any other role, is refused.
    pub fn try_from_canonical(m: &message::Message) -> (converted: Result<Vec<Message>, MessageError>)
        ensures
            match converted {
                Ok(messages) => representable(*m) && views(messages@) == turns(*m),
                Err(e) => !representable(*m) && e.reason() == unsupported(*m),
            },
    {
        match m {
            message::Message::User { content } => match text_parts(content) {
                Some(texts) => {
                    let mut out: Vec<Message> = Vec::new();
                    let mut i: usize = 0;
                    while i < texts.len()
                        invariant
                            i <= texts.len(),
                            out.len() == i,
                            forall|k: int|
                                0 <= k < i ==> (#[trigger] out[k])@ == (MessageView::User {
                                    message: texts[k]@,
                                    tool_calls: Seq::empty(),
                                }),
                        decreases texts.len() - i,
                    {
                        let turn = Message::User { message: texts[i].clone(), tool_calls: Vec::new() };
                        assert(views(turn->User_tool_calls@) =~= Seq::<ToolCallView>::empty());
                        out.push(turn);
                        i = i + 1;
                    }
                    assert(views(out@) =~= turns(*m)) by {
                        assert(views(texts@).len() == content@.len());
                        assert forall|k: int| 0 <= k < out.len() implies views(out@)[k] == turns(
                            *m,
                        )[k] by {
                            assert(out[k]@ == (MessageView::User {
                                message: texts[k]@,
                                tool_calls: Seq::empty(),
                            }));
                            assert(views(texts@)[k] == part_texts(content@)[k]);
                        }
                    }
                    Ok(out)
                },
                None => Err(
                    MessageError::ConversionError(
                        "Only text content is supported by Cohere".to_owned(),
                    ),
                ),
            },
            _ => Err(
                MessageError::ConversionError("Only user messages are supported by Cohere".to_owned()),
            ),
        }
    }
}

} // verus!

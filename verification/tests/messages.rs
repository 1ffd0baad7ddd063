use mcp_rig::json::{Member, Number, Value};
use mcp_rig::message;
use mcp_rig::message::{
    AssistantContent, Image, MessageError, Text, ToolCall as CanonicalToolCall, ToolFunction,
    ToolResult as CanonicalToolResult, ToolResultContent, UserContent,
};
use mcp_rig::one_or_many::OneOrMany;
use mcp_rig::providers::cohere::message::{
    messages_to_json, text_parts, tool_calls_to_json, tool_results_to_json,
};
use mcp_rig::providers::cohere::{Message, ToolCall, ToolResult};

fn s(text: &str) -> Value {
    Value::String(text.to_string())
}

fn obj(members: Vec<(&str, Value)>) -> Value {
    Value::Object(
        members
            .into_iter()
            .map(|(key, value)| Member { key: key.to_string(), value })
            .collect(),
    )
}

fn text(t: &str) -> UserContent {
    UserContent::Text(Text { text: t.to_string() })
}

fn image() -> UserContent {
    UserContent::Image(Image { data: "aGVsbG8=".to_string(), media_type: Some("image/png".to_string()) })
}

fn user_turn(t: &str) -> Message {
    Message::User { message: t.to_string(), tool_calls: vec![] }
}

#[test]
fn user_text_becomes_one_message() {
    let m = message::Message::user("hello".to_string());
    assert_eq!(Message::try_from_canonical(&m), Ok(vec![user_turn("hello")]));
}

#[test]
fn each_text_part_becomes_a_message_in_order() {
    let m = message::Message::User {
        content: OneOrMany::many(vec![text("one"), text("two"), text("three")]).unwrap(),
    };
    assert_eq!(
        Message::try_from_canonical(&m),
        Ok(vec![user_turn("one"), user_turn("two"), user_turn("three")])
    );
}

#[test]
fn image_part_is_refused() {
    let expected =
        Err(MessageError::ConversionError("Only text content is supported by Cohere".to_string()));
    let m = message::Message::User { content: OneOrMany::one(image()) };
    assert_eq!(Message::try_from_canonical(&m), expected);
    let m = message::Message::User {
        content: OneOrMany::many(vec![text("look"), image()]).unwrap(),
    };
    assert_eq!(Message::try_from_canonical(&m), expected);
    let m = message::Message::User {
        content: OneOrMany::many(vec![image(), text("look")]).unwrap(),
    };
    assert_eq!(Message::try_from_canonical(&m), expected);
}

#[test]
fn tool_result_part_is_refused() {
    let result = UserContent::ToolResult(CanonicalToolResult {
        id: "call-1".to_string(),
        content: OneOrMany::one(ToolResultContent::Text(Text { text: "3".to_string() })),
    });
    let m = message::Message::User { content: OneOrMany::many(vec![text("a"), result]).unwrap() };
    assert_eq!(
        Message::try_from_canonical(&m),
        Err(MessageError::ConversionError("Only text content is supported by Cohere".to_string()))
    );
}

#[test]
fn other_roles_are_refused() {
    let expected =
        Err(MessageError::ConversionError("Only user messages are supported by Cohere".to_string()));
    assert_eq!(Message::try_from_canonical(&message::Message::assistant("hi".to_string())), expected);
    let system = message::Message::System { text: "be brief".to_string() };
    assert_eq!(Message::try_from_canonical(&system), expected);
    let tool = message::Message::Tool {
        result: CanonicalToolResult {
            id: "call-1".to_string(),
            content: OneOrMany::one(ToolResultContent::Text(Text { text: "3".to_string() })),
        },
    };
    assert_eq!(Message::try_from_canonical(&tool), expected);
    let calling = message::Message::Assistant {
        content: OneOrMany::one(AssistantContent::ToolCall(CanonicalToolCall {
            id: "call-1".to_string(),
            function: ToolFunction { name: "add".to_string(), arguments: Value::Null },
        })),
    };
    assert_eq!(Message::try_from_canonical(&calling), expected);
}

#[test]
fn text_parts_gives_texts_or_nothing() {
    let all = OneOrMany::many(vec![text("a"), text("b")]).unwrap();
    assert_eq!(text_parts(&all), Some(vec!["a".to_string(), "b".to_string()]));
    let mixed = OneOrMany::many(vec![text("a"), image(), text("b")]).unwrap();
    assert_eq!(text_parts(&mixed), None);
    assert_eq!(text_parts(&OneOrMany::one(image())), None);
}

#[test]
fn constructors_build_parts() {
    assert_eq!(
        AssistantContent::text("hi".to_string()),
        AssistantContent::Text(Text { text: "hi".to_string() })
    );
    assert_eq!(
        AssistantContent::tool_call("id".to_string(), "add".to_string(), s("args")),
        AssistantContent::ToolCall(CanonicalToolCall {
            id: "id".to_string(),
            function: ToolFunction { name: "add".to_string(), arguments: s("args") },
        })
    );
    assert_eq!(UserContent::text("hi".to_string()), text("hi"));
}

#[test]
fn messages_as_json_carry_role_in_capitals() {
    let call = ToolCall { name: "add".to_string(), parameters: obj(vec![("x", Value::Number(Number::PosInt(1)))]) };
    let call_json = obj(vec![("name", s("add")), ("parameters", obj(vec![("x", Value::Number(Number::PosInt(1)))]))]);
    assert_eq!(call.to_json(), call_json);
    assert_eq!(
        user_turn("hello").to_json(),
        obj(vec![("role", s("USER")), ("message", s("hello")), ("tool_calls", Value::Array(vec![]))])
    );
    assert_eq!(
        Message::Chatbot { message: "hi".to_string(), tool_calls: vec![call.clone()] }.to_json(),
        obj(vec![
            ("role", s("CHATBOT")),
            ("message", s("hi")),
            ("tool_calls", Value::Array(vec![call_json.clone()])),
        ])
    );
    let result = ToolResult { call: call.clone(), outputs: vec![obj(vec![("sum", Value::Number(Number::PosInt(3)))])] };
    let result_json = obj(vec![
        ("call", call_json.clone()),
        ("outputs", Value::Array(vec![obj(vec![("sum", Value::Number(Number::PosInt(3)))])])),
    ]);
    assert_eq!(result.to_json(), result_json);
    assert_eq!(
        Message::Tool { tool_results: vec![result.clone()] }.to_json(),
        obj(vec![("role", s("TOOL")), ("tool_results", Value::Array(vec![result_json.clone()]))])
    );
    assert_eq!(
        Message::System { content: "brief".to_string(), tool_calls: vec![] }.to_json(),
        obj(vec![("role", s("SYSTEM")), ("content", s("brief")), ("tool_calls", Value::Array(vec![]))])
    );
    assert_eq!(tool_calls_to_json(&vec![call.clone(), call]), Value::Array(vec![call_json.clone(), call_json]));
    assert_eq!(tool_results_to_json(&vec![result]), Value::Array(vec![result_json]));
    assert_eq!(
        messages_to_json(&vec![user_turn("a"), user_turn("b")]),
        Value::Array(vec![user_turn("a").to_json(), user_turn("b").to_json()])
    );
}

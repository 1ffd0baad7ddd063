use mcp_rig::completion;
use mcp_rig::completion::{documents_to_json, CompletionError, CompletionRequest};
use mcp_rig::json::{Member, Number, Value};
use mcp_rig::message;
use mcp_rig::message::{AssistantContent, Image, Text, UserContent};
use mcp_rig::one_or_many::OneOrMany;
use mcp_rig::completion::CompletionModel as _;
use mcp_rig::providers::cohere::{
    Client, CompletionModel, CompletionResponse, ToolCall, COMMAND, COMMAND_LIGHT,
    COMMAND_LIGHT_NIGHTLY, COMMAND_NIGHTLY, COMMAND_R, COMMAND_R_PLUS,
};
use mcp_rig::transport::HttpReply;

fn s(text: &str) -> Value {
    Value::String(text.to_string())
}

fn n(value: u64) -> Value {
    Value::Number(Number::PosInt(value))
}

fn float(value: f64) -> Value {
    Value::Number(Number::Float { bits: value.to_bits() })
}

fn arr(items: Vec<Value>) -> Value {
    Value::Array(items)
}

fn obj(members: Vec<(&str, Value)>) -> Value {
    Value::Object(
        members
            .into_iter()
            .map(|(key, value)| Member { key: key.to_string(), value })
            .collect(),
    )
}

fn model() -> CompletionModel {
    Client::new("secret").completion_model(COMMAND_R)
}

fn request(prompt: message::Message) -> CompletionRequest {
    CompletionRequest {
        preamble: None,
        prompt,
        chat_history: vec![],
        documents: vec![],
        tools: vec![],
        temperature: None,
        additional_params: None,
    }
}

fn image() -> UserContent {
    UserContent::Image(Image { data: "aGVsbG8=".to_string(), media_type: None })
}

fn answer(text: &str, tool_calls: Vec<ToolCall>) -> CompletionResponse {
    CompletionResponse {
        text: text.to_string(),
        generation_id: "gen-1".to_string(),
        citations: vec![],
        documents: vec![],
        is_search_required: None,
        search_queries: vec![],
        search_results: vec![],
        finish_reason: "COMPLETE".to_string(),
        tool_calls,
        chat_history: vec![],
    }
}

fn received(success: bool, body: &str, json: Option<Value>) -> HttpReply {
    HttpReply::Received { success, body: body.to_string(), json }
}

#[test]
fn completion_model_names() {
    assert_eq!(COMMAND_R_PLUS, "comman-r-plus");
    assert_eq!(COMMAND_R, "command-r");
    assert_eq!(COMMAND, "command");
    assert_eq!(COMMAND_NIGHTLY, "command-nightly");
    assert_eq!(COMMAND_LIGHT, "command-light");
    assert_eq!(COMMAND_LIGHT_NIGHTLY, "command-light-nightly");
}

#[test]
fn completion_model_keeps_client_and_name() {
    let client = Client::new("secret");
    let m = client.completion_model("command-r");
    assert_eq!(m.model, "command-r");
    assert_eq!(m.client, client);
    assert_eq!(CompletionModel::new(client.clone(), "command"), client.completion_model("command"));
}

#[test]
fn request_is_posted_to_chat_with_bearer_credential() {
    let post = model().completion_request(request(message::Message::user("hi".to_string()))).unwrap();
    assert_eq!(post.url, "https://api.cohere.ai/v1/chat");
    assert_eq!(post.authorization, "Bearer secret");
}

#[test]
fn generated_body_has_all_members() {
    let post = model().completion_request(request(message::Message::user("hi".to_string()))).unwrap();
    assert_eq!(
        post.body,
        obj(vec![
            ("model", s("command-r")),
            ("preamble", Value::Null),
            ("message", s("hi")),
            ("documents", arr(vec![])),
            ("chat_history", arr(vec![])),
            ("temperature", Value::Null),
            ("tools", arr(vec![])),
        ])
    );
}

#[test]
fn body_carries_preamble_history_documents_tools_and_temperature() {
    let mut r = request(message::Message::user("now".to_string()));
    r.preamble = Some("You are terse.".to_string());
    r.temperature = Some(Number::Float { bits: 0.25f64.to_bits() });
    r.chat_history = vec![
        message::Message::User {
            content: OneOrMany::many(vec![
                UserContent::Text(Text { text: "first".to_string() }),
                UserContent::Text(Text { text: "second".to_string() }),
            ])
            .unwrap(),
        },
        message::Message::user("third".to_string()),
    ];
    r.documents = vec![completion::Document {
        id: "doc-1".to_string(),
        text: "body".to_string(),
        additional_props: vec![("author".to_string(), "me".to_string())],
    }];
    r.tools = vec![completion::ToolDefinition {
        name: "add".to_string(),
        description: "Add".to_string(),
        parameters: obj(vec![
            ("properties", obj(vec![("x", obj(vec![("type", s("number")), ("description", s("first"))]))])),
            ("required", arr(vec![s("x")])),
        ]),
    }];
    let post = model().completion_request(r).unwrap();
    let turn = |t: &str| obj(vec![("role", s("USER")), ("message", s(t)), ("tool_calls", arr(vec![]))]);
    assert_eq!(post.body.get("model"), Some(&s("command-r")));
    assert_eq!(post.body.get("preamble"), Some(&s("You are terse.")));
    assert_eq!(post.body.get("message"), Some(&s("now")));
    assert_eq!(post.body.get("temperature"), Some(&float(0.25)));
    assert_eq!(
        post.body.get("chat_history"),
        Some(&arr(vec![turn("first"), turn("second"), turn("third")]))
    );
    assert_eq!(
        post.body.get("documents"),
        Some(&arr(vec![obj(vec![("id", s("doc-1")), ("text", s("body")), ("author", s("me"))])]))
    );
    assert_eq!(
        post.body.get("tools"),
        Some(&arr(vec![obj(vec![
            ("name", s("add")),
            ("description", s("Add")),
            (
                "parameter_definitions",
                obj(vec![(
                    "x",
                    obj(vec![
                        ("description", s("first")),
                        ("type", s("number")),
                        ("required", Value::Bool(true)),
                    ])
                )])
            ),
        ])]))
    );
}

#[test]
fn prompt_parts_are_joined_by_newline() {
    let prompt = message::Message::User {
        content: OneOrMany::many(vec![
            UserContent::Text(Text { text: "line one".to_string() }),
            UserContent::Text(Text { text: "line two".to_string() }),
            UserContent::Text(Text { text: "line three".to_string() }),
        ])
        .unwrap(),
    };
    let post = model().completion_request(request(prompt)).unwrap();
    assert_eq!(post.body.get("message"), Some(&s("line one\nline two\nline three")));
}

#[test]
fn additional_params_override_temperature() {
    let mut r = request(message::Message::user("hi".to_string()));
    r.temperature = Some(Number::Float { bits: 0.5f64.to_bits() });
    r.additional_params = Some(obj(vec![("temperature", float(0.9))]));
    let post = model().completion_request(r).unwrap();
    assert_eq!(post.body.get("temperature"), Some(&float(0.9)));
    assert_eq!(post.body.get("model"), Some(&s("command-r")));
    assert_eq!(post.body.get("message"), Some(&s("hi")));
}

#[test]
fn additional_params_add_members_the_model_does_not_know() {
    let mut r = request(message::Message::user("hi".to_string()));
    r.additional_params = Some(obj(vec![
        ("max_tokens", n(100)),
        ("connectors", arr(vec![obj(vec![("id", s("web-search"))])])),
    ]));
    let post = model().completion_request(r).unwrap();
    assert_eq!(post.body.get("max_tokens"), Some(&n(100)));
    assert_eq!(post.body.get("connectors"), Some(&arr(vec![obj(vec![("id", s("web-search"))])])));
    assert_eq!(post.body.get("tools"), Some(&arr(vec![])));
    assert_eq!(post.body.as_object().map(|m| m.len()), Some(9));
}

#[test]
fn image_in_prompt_is_refused_before_anything_is_sent() {
    let prompt = message::Message::User {
        content: OneOrMany::many(vec![UserContent::Text(Text { text: "see".to_string() }), image()])
            .unwrap(),
    };
    assert_eq!(
        model().completion_request(request(prompt)),
        Err(CompletionError::ConversionError("Only text content is supported by Cohere".to_string()))
    );
}

#[test]
fn image_in_history_is_refused() {
    let mut r = request(message::Message::user("hi".to_string()));
    r.chat_history = vec![
        message::Message::user("fine".to_string()),
        message::Message::User { content: OneOrMany::one(image()) },
    ];
    assert_eq!(
        model().completion_request(r),
        Err(CompletionError::ConversionError("Only text content is supported by Cohere".to_string()))
    );
}

#[test]
fn assistant_message_is_refused() {
    let expected = Err(CompletionError::ConversionError(
        "Only user messages are supported by Cohere".to_string(),
    ));
    assert_eq!(
        model().completion_request(request(message::Message::assistant("hi".to_string()))),
        expected
    );
    let mut r = request(message::Message::user("hi".to_string()));
    r.chat_history = vec![message::Message::assistant("earlier".to_string())];
    assert_eq!(model().completion_request(r), expected);
}

#[test]
fn history_is_checked_before_prompt_and_prompt_before_tools() {
    let broken_tool = completion::ToolDefinition {
        name: "t".to_string(),
        description: "d".to_string(),
        parameters: Value::Null,
    };
    let mut r = request(message::Message::User { content: OneOrMany::one(image()) });
    r.chat_history = vec![message::Message::assistant("earlier".to_string())];
    r.tools = vec![broken_tool.clone()];
    assert_eq!(
        model().completion_request(r),
        Err(CompletionError::ConversionError("Only user messages are supported by Cohere".to_string()))
    );
    let mut r = request(message::Message::User { content: OneOrMany::one(image()) });
    r.tools = vec![broken_tool.clone()];
    assert_eq!(
        model().completion_request(r),
        Err(CompletionError::ConversionError("Only text content is supported by Cohere".to_string()))
    );
    let mut r = request(message::Message::user("hi".to_string()));
    r.tools = vec![broken_tool];
    assert_eq!(
        model().completion_request(r),
        Err(CompletionError::ConversionError("Tool properties should exist".to_string()))
    );
}

#[test]
fn documents_as_json() {
    let documents = vec![
        completion::Document { id: "a".to_string(), text: "one".to_string(), additional_props: vec![] },
        completion::Document {
            id: "b".to_string(),
            text: "two".to_string(),
            additional_props: vec![
                ("title".to_string(), "T".to_string()),
                ("url".to_string(), "U".to_string()),
            ],
        },
    ];
    assert_eq!(
        documents_to_json(&documents),
        arr(vec![
            obj(vec![("id", s("a")), ("text", s("one"))]),
            obj(vec![("id", s("b")), ("text", s("two")), ("title", s("T")), ("url", s("U"))]),
        ])
    );
    assert_eq!(documents[0].to_json(), obj(vec![("id", s("a")), ("text", s("one"))]));
}

#[test]
fn text_answer_becomes_single_text() {
    let response = answer("Hello there", vec![]).into_canonical();
    assert_eq!(
        response.choice.clone().into_vec(),
        vec![AssistantContent::text("Hello there".to_string())]
    );
    assert_eq!(response.raw_response, answer("Hello there", vec![]));
}

#[test]
fn tool_calls_exclude_text() {
    let calls = vec![
        ToolCall { name: "add".to_string(), parameters: obj(vec![("x", n(1)), ("y", n(2))]) },
        ToolCall { name: "sub".to_string(), parameters: obj(vec![("x", n(5))]) },
    ];
    let response = answer("I will call tools", calls.clone()).into_canonical();
    assert_eq!(
        response.choice.clone().into_vec(),
        vec![
            AssistantContent::tool_call(
                "add".to_string(),
                "add".to_string(),
                obj(vec![("x", n(1)), ("y", n(2))])
            ),
            AssistantContent::tool_call("sub".to_string(), "sub".to_string(), obj(vec![("x", n(5))])),
        ]
    );
    assert!(response
        .choice
        .clone()
        .into_vec()
        .iter()
        .all(|part| matches!(part, AssistantContent::ToolCall(_))));
    assert_eq!(response.raw_response.text, "I will call tools");
    assert_eq!(response.raw_response.tool_calls, calls);
}

#[test]
fn single_tool_call_takes_name_as_id() {
    let calls = vec![ToolCall { name: "lookup".to_string(), parameters: Value::Null }];
    let response = answer("", calls).into_canonical();
    assert_eq!(
        response.choice.into_vec(),
        vec![AssistantContent::tool_call("lookup".to_string(), "lookup".to_string(), Value::Null)]
    );
}

#[test]
fn failed_exchange_is_transport_error() {
    let reply = HttpReply::Failed { reason: "connection refused".to_string() };
    assert_eq!(
        model().completion_response(reply),
        Err(CompletionError::TransportError("connection refused".to_string()))
    );
}

#[test]
fn status_other_than_success_is_provider_error_with_body() {
    let body = "{\"message\":\"invalid api token\"}";
    let reply = received(false, body, Some(obj(vec![("message", s("invalid api token"))])));
    assert_eq!(
        model().completion_response(reply),
        Err(CompletionError::ProviderError(body.to_string()))
    );
    assert_eq!(
        model().completion_response(received(false, "Bad Gateway", None)),
        Err(CompletionError::ProviderError("Bad Gateway".to_string()))
    );
}

#[test]
fn error_payload_is_provider_error_with_message() {
    let reply = received(true, "{\"message\":\"too many tokens\"}", Some(obj(vec![("message", s("too many tokens"))])));
    assert_eq!(
        model().completion_response(reply),
        Err(CompletionError::ProviderError("too many tokens".to_string()))
    );
}

#[test]
fn payload_of_neither_shape_is_provider_error_with_raw_text() {
    assert_eq!(
        model().completion_response(received(true, "<html>oops</html>", None)),
        Err(CompletionError::ProviderError("<html>oops</html>".to_string()))
    );
    let reply = received(true, "{\"text\":\"half\"}", Some(obj(vec![("text", s("half"))])));
    assert_eq!(
        model().completion_response(reply),
        Err(CompletionError::ProviderError("{\"text\":\"half\"}".to_string()))
    );
    let reply = received(true, "[1]", Some(arr(vec![n(1)])));
    assert_eq!(
        model().completion_response(reply),
        Err(CompletionError::ProviderError("[1]".to_string()))
    );
}

#[test]
fn success_payload_with_text_is_read() {
    let json = obj(vec![
        ("text", s("Hello")),
        ("generation_id", s("gen-1")),
        ("finish_reason", s("COMPLETE")),
    ]);
    let response = model().completion_response(received(true, "ignored", Some(json))).unwrap();
    assert_eq!(response.choice.clone().into_vec(), vec![AssistantContent::text("Hello".to_string())]);
    assert_eq!(response.raw_response, {
        let mut expected = answer("Hello", vec![]);
        expected.generation_id = "gen-1".to_string();
        expected
    });
}

#[test]
fn success_payload_with_tool_calls_drops_text() {
    let json = obj(vec![
        ("text", s("Let me compute that.")),
        ("generation_id", s("gen-2")),
        ("finish_reason", s("COMPLETE")),
        (
            "tool_calls",
            arr(vec![obj(vec![("name", s("add")), ("parameters", obj(vec![("x", n(1))]))])]),
        ),
        ("message", s("not an error")),
    ]);
    let response = model().completion_response(received(true, "ignored", Some(json))).unwrap();
    assert_eq!(
        response.choice.into_vec(),
        vec![AssistantContent::tool_call("add".to_string(), "add".to_string(), obj(vec![("x", n(1))]))]
    );
    assert_eq!(response.raw_response.text, "Let me compute that.");
}

#[test]
fn record_of_a_completion_that_says_what_it_cost() {
    let json = obj(vec![
        ("text", s("Hello")),
        ("generation_id", s("gen-1")),
        ("finish_reason", s("COMPLETE")),
        (
            "meta",
            obj(vec![("billed_units", obj(vec![("input_tokens", n(7)), ("output_tokens", n(21))]))]),
        ),
    ]);
    assert_eq!(
        CompletionModel::completion_record(&received(true, "ignored", Some(json))),
        Some(
            "Cohere completion billed units: Input tokens: 7\nOutput tokens: 21\nSearch units: 0\nClassifications: 0"
                .to_string()
        )
    );
}

#[test]
fn no_record_where_the_reply_does_not_say() {
    let plain = obj(vec![
        ("text", s("Hello")),
        ("generation_id", s("gen-1")),
        ("finish_reason", s("COMPLETE")),
    ]);
    assert_eq!(CompletionModel::completion_record(&received(true, "ignored", Some(plain.clone()))), None);
    let mut with_meta = match plain.clone() {
        Value::Object(members) => members,
        _ => unreachable!(),
    };
    with_meta.push(Member { key: "meta".to_string(), value: obj(vec![("api_version", obj(vec![]))]) });
    assert_eq!(
        CompletionModel::completion_record(&received(true, "ignored", Some(Value::Object(with_meta)))),
        None
    );
    let units_only = obj(vec![("meta", obj(vec![("billed_units", obj(vec![("input_tokens", n(7))]))]))]);
    assert_eq!(CompletionModel::completion_record(&received(true, "ignored", Some(units_only))), None);
    let refused = obj(vec![
        ("text", s("Hello")),
        ("generation_id", s("gen-1")),
        ("finish_reason", s("COMPLETE")),
        ("meta", obj(vec![("billed_units", obj(vec![("input_tokens", n(7))]))])),
    ]);
    assert_eq!(CompletionModel::completion_record(&received(false, "ignored", Some(refused))), None);
    assert_eq!(CompletionModel::completion_record(&received(true, "ignored", None)), None);
    assert_eq!(
        CompletionModel::completion_record(&HttpReply::Failed { reason: "down".to_string() }),
        None
    );
}

#[test]
fn temperature_that_is_not_well_formed_is_refused() {
    let expected = Err(CompletionError::ConversionError(
        "Temperature should be a well-formed number".to_string(),
    ));
    for bad in [
        Number::Float { bits: f64::NAN.to_bits() },
        Number::Float { bits: f64::INFINITY.to_bits() },
        Number::NegInt(3),
    ] {
        let mut r = request(message::Message::user("hi".to_string()));
        r.temperature = Some(bad);
        assert_eq!(model().completion_request(r), expected);
    }
    let mut r = request(message::Message::User { content: OneOrMany::one(image()) });
    r.temperature = Some(Number::NegInt(3));
    assert_eq!(
        model().completion_request(r),
        Err(CompletionError::ConversionError("Only text content is supported by Cohere".to_string()))
    );
    let mut r = request(message::Message::user("hi".to_string()));
    r.temperature = Some(Number::NegInt(-1));
    assert_eq!(
        model().completion_request(r).unwrap().body.get("temperature"),
        Some(&Value::Number(Number::NegInt(-1)))
    );
}

#[test]
fn address_with_trailing_slash_gives_one_slash() {
    let m = Client::from_url("secret", "https://api.cohere.ai/").completion_model(COMMAND_R);
    let post = m.completion_request(request(message::Message::user("hi".to_string()))).unwrap();
    assert_eq!(post.url, "https://api.cohere.ai/v1/chat");
}

use mcp_rig::decode::{
    count, count_under, default_count, default_flag, default_list, default_texts, list, numbers,
    optional_flag, optional_text, text, texts, texts_under, Decode,
};
use mcp_rig::json::{Member, Number, Value};
use mcp_rig::providers::cohere::decode::{decode_completion, decode_embeddings};
use mcp_rig::providers::cohere::{
    ApiErrorResponse, ApiResponse, ApiVersion, BilledUnits, ChatHistory, Citation,
    CompletionResponse, Connector, Document, EmbeddingResponse, Meta, SearchQuery, SearchResult,
    ToolCall,
};

fn s(text: &str) -> Value {
    Value::String(text.to_string())
}

fn n(value: u64) -> Value {
    Value::Number(Number::PosInt(value))
}

fn arr(items: Vec<Value>) -> Value {
    Value::Array(items)
}

fn obj(members: Vec<(&str, Value)>) -> Value {
    Value::Object(
        members
            .into_iter()
            .map(|(key, value)| Member { key: key.to_string(), value })
            .collect(),
    )
}

#[test]
fn text_readers() {
    let v = obj(vec![("a", s("x")), ("b", n(1)), ("c", Value::Null)]);
    assert_eq!(text(&v, "a"), Some("x".to_string()));
    assert_eq!(text(&v, "b"), None);
    assert_eq!(text(&v, "missing"), None);
    assert_eq!(text(&s("x"), "a"), None);
    assert_eq!(optional_text(&v, "a"), Some(Some("x".to_string())));
    assert_eq!(optional_text(&v, "c"), Some(None));
    assert_eq!(optional_text(&v, "missing"), Some(None));
    assert_eq!(optional_text(&v, "b"), None);
}

#[test]
fn count_readers() {
    assert_eq!(count(&n(0)), Some(0));
    assert_eq!(count(&n(4294967295)), Some(u32::MAX));
    assert_eq!(count(&n(4294967296)), None);
    assert_eq!(count(&Value::Number(Number::NegInt(-1))), None);
    assert_eq!(count(&Value::Number(Number::Float { bits: 1.0f64.to_bits() })), None);
    assert_eq!(count(&s("1")), None);
    let v = obj(vec![("a", n(7)), ("b", s("7"))]);
    assert_eq!(count_under(&v, "a"), Some(7));
    assert_eq!(count_under(&v, "b"), None);
    assert_eq!(count_under(&v, "missing"), None);
    assert_eq!(default_count(&v, "a"), Some(7));
    assert_eq!(default_count(&v, "missing"), Some(0));
    assert_eq!(default_count(&v, "b"), None);
}

#[test]
fn flag_readers() {
    let v = obj(vec![("yes", Value::Bool(true)), ("no", Value::Bool(false)), ("null", Value::Null), ("text", s("true"))]);
    assert_eq!(default_flag(&v, "yes"), Some(true));
    assert_eq!(default_flag(&v, "no"), Some(false));
    assert_eq!(default_flag(&v, "missing"), Some(false));
    assert_eq!(default_flag(&v, "null"), None);
    assert_eq!(default_flag(&v, "text"), None);
    assert_eq!(optional_flag(&v, "yes"), Some(Some(true)));
    assert_eq!(optional_flag(&v, "null"), Some(None));
    assert_eq!(optional_flag(&v, "missing"), Some(None));
    assert_eq!(optional_flag(&v, "text"), None);
}

#[test]
fn list_readers() {
    assert_eq!(texts(&arr(vec![s("a"), s("b")])), Some(vec!["a".to_string(), "b".to_string()]));
    assert_eq!(texts(&arr(vec![])), Some(vec![]));
    assert_eq!(texts(&arr(vec![s("a"), n(1)])), None);
    assert_eq!(texts(&s("a")), None);
    let v = obj(vec![("ids", arr(vec![s("a")])), ("bad", Value::Null)]);
    assert_eq!(texts_under(&v, "ids"), Some(vec!["a".to_string()]));
    assert_eq!(texts_under(&v, "missing"), None);
    assert_eq!(default_texts(&v, "missing"), Some(vec![]));
    assert_eq!(default_texts(&v, "bad"), None);
    assert_eq!(
        numbers(&arr(vec![n(1), Value::Number(Number::NegInt(-2))])),
        Some(vec![Number::PosInt(1), Number::NegInt(-2)])
    );
    assert_eq!(numbers(&arr(vec![n(1), s("2")])), None);
    assert_eq!(numbers(&Value::Null), None);
    assert_eq!(
        list::<Vec<Number>>(&arr(vec![arr(vec![n(1)]), arr(vec![])])),
        Some(vec![vec![Number::PosInt(1)], vec![]])
    );
    assert_eq!(list::<Vec<Number>>(&arr(vec![arr(vec![n(1)]), n(2)])), None);
    assert_eq!(list::<Vec<Number>>(&n(2)), None);
}

#[test]
fn lists_of_typed_values() {
    let connectors = arr(vec![obj(vec![("id", s("a"))]), obj(vec![("id", s("b"))])]);
    assert_eq!(
        list::<Connector>(&connectors),
        Some(vec![Connector { id: "a".to_string() }, Connector { id: "b".to_string() }])
    );
    assert_eq!(list::<Connector>(&arr(vec![])), Some(vec![]));
    assert_eq!(list::<Connector>(&arr(vec![obj(vec![("id", s("a"))]), obj(vec![])])), None);
    assert_eq!(list::<Connector>(&obj(vec![("id", s("a"))])), None);
    let holder = obj(vec![("connectors", connectors), ("broken", Value::Null)]);
    assert_eq!(default_list::<Connector>(&holder, "connectors").map(|c| c.len()), Some(2));
    assert_eq!(default_list::<Connector>(&holder, "missing"), Some(vec![]));
    assert_eq!(default_list::<Connector>(&holder, "broken"), None);
}

#[test]
fn citation_is_read() {
    let v = obj(vec![
        ("start", n(0)),
        ("end", n(5)),
        ("text", s("hello")),
        ("document_ids", arr(vec![s("doc-1"), s("doc-2")])),
        ("unknown", n(1)),
    ]);
    assert_eq!(
        Citation::decode(&v),
        Some(Citation {
            start: 0,
            end: 5,
            text: "hello".to_string(),
            document_ids: vec!["doc-1".to_string(), "doc-2".to_string()],
        })
    );
    assert_eq!(Citation::decode(&obj(vec![("start", n(0)), ("end", n(5)), ("text", s("hello"))])), None);
}

#[test]
fn document_keeps_other_members() {
    let v = obj(vec![("title", s("T")), ("id", s("doc-1")), ("score", n(3))]);
    assert_eq!(
        Document::decode(&v),
        Some(Document {
            id: "doc-1".to_string(),
            additional_prop: vec![
                Member { key: "title".to_string(), value: s("T") },
                Member { key: "score".to_string(), value: n(3) },
            ],
        })
    );
    assert_eq!(Document::decode(&obj(vec![("title", s("T"))])), None);
    assert_eq!(Document::decode(&obj(vec![("id", n(1))])), None);
}

#[test]
fn search_result_is_read_with_defaults() {
    let v = obj(vec![
        ("search_query", obj(vec![("text", s("q")), ("generation_id", s("g"))])),
        ("connector", obj(vec![("id", s("web"))])),
        ("document_ids", arr(vec![])),
    ]);
    assert_eq!(
        SearchResult::decode(&v),
        Some(SearchResult {
            search_query: SearchQuery { text: "q".to_string(), generation_id: "g".to_string() },
            connector: Connector { id: "web".to_string() },
            document_ids: vec![],
            error_message: None,
            continue_on_failure: false,
        })
    );
    let v = obj(vec![
        ("search_query", obj(vec![("text", s("q")), ("generation_id", s("g"))])),
        ("connector", obj(vec![("id", s("web"))])),
        ("document_ids", arr(vec![])),
        ("error_message", s("failed")),
        ("continue_on_failure", Value::Bool(true)),
    ]);
    let read = SearchResult::decode(&v).unwrap();
    assert_eq!(read.error_message, Some("failed".to_string()));
    assert!(read.continue_on_failure);
    assert_eq!(SearchResult::decode(&obj(vec![("connector", obj(vec![("id", s("web"))]))])), None);
}

#[test]
fn tool_call_and_history_are_read() {
    let v = obj(vec![("name", s("add")), ("parameters", obj(vec![("x", n(1))]))]);
    assert_eq!(
        ToolCall::decode(&v),
        Some(ToolCall { name: "add".to_string(), parameters: obj(vec![("x", n(1))]) })
    );
    assert_eq!(ToolCall::decode(&obj(vec![("name", s("add"))])), None);
    assert_eq!(
        ToolCall::decode(&obj(vec![("name", s("add")), ("parameters", Value::Null)])),
        Some(ToolCall { name: "add".to_string(), parameters: Value::Null })
    );
    let v = obj(vec![("role", s("USER")), ("message", s("hi"))]);
    assert_eq!(
        ChatHistory::decode(&v),
        Some(ChatHistory { role: "USER".to_string(), message: "hi".to_string() })
    );
    assert_eq!(ChatHistory::decode(&obj(vec![("role", s("USER"))])), None);
}

#[test]
fn completion_is_read_in_full() {
    let v = obj(vec![
        ("text", s("Hello")),
        ("generation_id", s("gen-1")),
        (
            "citations",
            arr(vec![obj(vec![
                ("start", n(0)),
                ("end", n(5)),
                ("text", s("Hello")),
                ("document_ids", arr(vec![s("doc-1")])),
            ])]),
        ),
        ("documents", arr(vec![obj(vec![("id", s("doc-1")), ("title", s("T"))])])),
        ("is_search_required", Value::Bool(false)),
        ("search_queries", arr(vec![obj(vec![("text", s("q")), ("generation_id", s("g"))])])),
        ("search_results", arr(vec![])),
        ("finish_reason", s("COMPLETE")),
        ("tool_calls", arr(vec![obj(vec![("name", s("add")), ("parameters", Value::Null)])])),
        ("chat_history", arr(vec![obj(vec![("role", s("USER")), ("message", s("hi"))])])),
        ("meta", obj(vec![])),
    ]);
    let expected = CompletionResponse {
        text: "Hello".to_string(),
        generation_id: "gen-1".to_string(),
        citations: vec![Citation {
            start: 0,
            end: 5,
            text: "Hello".to_string(),
            document_ids: vec!["doc-1".to_string()],
        }],
        documents: vec![Document {
            id: "doc-1".to_string(),
            additional_prop: vec![Member { key: "title".to_string(), value: s("T") }],
        }],
        is_search_required: Some(false),
        search_queries: vec![SearchQuery { text: "q".to_string(), generation_id: "g".to_string() }],
        search_results: vec![],
        finish_reason: "COMPLETE".to_string(),
        tool_calls: vec![ToolCall { name: "add".to_string(), parameters: Value::Null }],
        chat_history: vec![ChatHistory { role: "USER".to_string(), message: "hi".to_string() }],
    };
    assert_eq!(CompletionResponse::decode(&v), Some(expected.clone()));
    assert_eq!(decode_completion(&v), Some(ApiResponse::Success(expected)));
}

#[test]
fn completion_with_a_member_of_the_wrong_kind_is_not_read() {
    let base = vec![("text", s("Hello")), ("generation_id", s("gen-1")), ("finish_reason", s("COMPLETE"))];
    assert!(CompletionResponse::decode(&obj(base.clone())).is_some());
    for (key, bad) in [
        ("citations", Value::Null),
        ("documents", s("none")),
        ("is_search_required", s("no")),
        ("search_queries", arr(vec![n(1)])),
        ("search_results", obj(vec![])),
        ("tool_calls", arr(vec![obj(vec![("name", s("add"))])])),
        ("chat_history", arr(vec![Value::Null])),
        ("text", n(1)),
    ] {
        let mut members = base.clone();
        members.push((key, bad));
        assert_eq!(CompletionResponse::decode(&obj(members)), None);
    }
}

#[test]
fn answer_is_error_where_it_is_no_payload() {
    let error = obj(vec![("message", s("invalid request"))]);
    assert_eq!(
        decode_completion(&error),
        Some(ApiResponse::Failure(ApiErrorResponse { message: "invalid request".to_string() }))
    );
    assert_eq!(
        decode_embeddings(&error),
        Some(ApiResponse::Failure(ApiErrorResponse { message: "invalid request".to_string() }))
    );
    assert_eq!(decode_completion(&obj(vec![("message", n(1))])), None);
    assert_eq!(decode_completion(&Value::Null), None);
    assert_eq!(decode_embeddings(&arr(vec![])), None);
}

#[test]
fn embeddings_are_read_with_meta() {
    let v = obj(vec![
        ("response_type", s("embeddings_floats")),
        ("id", s("emb-1")),
        ("embeddings", arr(vec![arr(vec![n(1), n(2)]), arr(vec![n(3), n(4)])])),
        ("texts", arr(vec![s("a"), s("b")])),
        (
            "meta",
            obj(vec![
                (
                    "api_version",
                    obj(vec![("version", s("1")), ("is_deprecated", Value::Bool(true)), ("is_experimental", Value::Null)]),
                ),
                ("billed_units", obj(vec![("input_tokens", n(2)), ("classifications", n(9))])),
                ("warnings", arr(vec![s("slow")])),
            ]),
        ),
    ]);
    let expected = EmbeddingResponse {
        response_type: Some("embeddings_floats".to_string()),
        id: "emb-1".to_string(),
        embeddings: vec![
            vec![Number::PosInt(1), Number::PosInt(2)],
            vec![Number::PosInt(3), Number::PosInt(4)],
        ],
        texts: vec!["a".to_string(), "b".to_string()],
        meta: Some(Meta {
            api_version: ApiVersion {
                version: "1".to_string(),
                is_deprecated: Some(true),
                is_experimental: None,
            },
            billed_units: BilledUnits { input_tokens: 2, output_tokens: 0, search_units: 0, classifications: 9 },
            warnings: vec!["slow".to_string()],
        }),
    };
    assert_eq!(EmbeddingResponse::decode(&v), Some(expected.clone()));
    assert_eq!(decode_embeddings(&v), Some(ApiResponse::Success(expected)));
}

#[test]
fn embeddings_without_meta_or_with_broken_meta() {
    let base = vec![("id", s("emb-1")), ("embeddings", arr(vec![])), ("texts", arr(vec![]))];
    let read = EmbeddingResponse::decode(&obj(base.clone())).unwrap();
    assert_eq!(read.meta, None);
    assert_eq!(read.response_type, None);
    let mut with_null = base.clone();
    with_null.push(("meta", Value::Null));
    assert_eq!(EmbeddingResponse::decode(&obj(with_null)).unwrap().meta, None);
    let mut with_broken = base.clone();
    with_broken.push(("meta", obj(vec![("api_version", obj(vec![("version", s("1"))]))])));
    assert_eq!(EmbeddingResponse::decode(&obj(with_broken)), None);
    let mut units_no_object = base.clone();
    units_no_object.push((
        "meta",
        obj(vec![("api_version", obj(vec![("version", s("1"))])), ("billed_units", n(1))]),
    ));
    assert_eq!(EmbeddingResponse::decode(&obj(units_no_object)), None);
    assert_eq!(EmbeddingResponse::decode(&obj(vec![("id", s("emb-1")), ("texts", arr(vec![]))])), None);
}

#[test]
fn numbers_that_are_not_well_formed_are_not_read() {
    assert_eq!(numbers(&arr(vec![n(1), Value::Number(Number::NegInt(1))])), None);
    let infinite = Value::Number(Number::Float { bits: f64::INFINITY.to_bits() });
    assert_eq!(numbers(&arr(vec![infinite.clone()])), None);
    assert_eq!(list::<Vec<Number>>(&arr(vec![arr(vec![n(1)]), arr(vec![infinite])])), None);
    let not_a_number = Value::Number(Number::Float { bits: f64::NAN.to_bits() });
    let answer = obj(vec![
        ("id", s("emb-1")),
        ("embeddings", arr(vec![arr(vec![not_a_number])])),
        ("texts", arr(vec![])),
    ]);
    assert_eq!(EmbeddingResponse::decode(&answer), None);
}

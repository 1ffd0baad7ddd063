//! Reading Cohere's answers from JSON.
//!
//! An answer is either a payload of the kind that was asked for or an error
//! with a `message`; which of the two it is shows in its shape alone.
//! Members that a type does not know are passed over.

use vstd::prelude::*;
use crate::decode::{
    count_at, count_under, default_count, default_count_at, default_flag, default_flag_at,
    default_list, default_list_reads, default_list_shape, default_texts, default_texts_at, list,
    list_reads, list_shape, optional_flag, optional_flag_at, optional_text, optional_text_at,
    text, text_at, texts_at, texts_under, Decode,
};
use crate::json::{
    distinct_keys, is_last, lemma_members_view_push, lemma_settled_ends, lemma_settled_step,
    members_view, settled, Member, Number, Value, ValueView,
};
use crate::providers::cohere::completion::{
    ChatHistory, Citation, CompletionResponse, Connector, Document, SearchQuery, SearchResult,
};
use crate::providers::cohere::embedding::{ApiVersion, BilledUnits, EmbeddingResponse, Meta};
use crate::providers::cohere::message::ToolCall;
use crate::text::str_eq;
use crate::views::views;

verus! {

/// The error that Cohere answers with in place of a payload.
#[derive(Debug, Clone, PartialEq, Eq)]
pub struct ApiErrorResponse {
    pub message: String,
}

/// An answer of Cohere: the payload, or an error.
#[derive(Debug, Clone, PartialEq, Eq)]
pub enum ApiResponse<T> {
    Success(T),
    Failure(ApiErrorResponse),
}

/// A citation is read from an object with its `start`, its `end`, its `text`
/// and its `document_ids`.
impl Decode for Citation {
    open spec fn shape(v: ValueView) -> bool {
        &&& count_at(v, "start"@) is Some
        &&& count_at(v, "end"@) is Some
        &&& text_at(v, "text"@) is Some
        &&& texts_at(v, "document_ids"@) is Some
    }

    open spec fn reads(self, v: ValueView) -> bool {
        &&& count_at(v, "start"@) == Some(self.start)
        &&& count_at(v, "end"@) == Some(self.end)
        &&& text_at(v, "text"@) == Some(self.text@)
        &&& texts_at(v, "document_ids"@) == Some(views(self.document_ids@))
    }

    fn decode(v: &Value) -> (read: Option<Self>) {
        let start = match count_under(v, "start") {
            Some(n) => n,
            None => {
                return None;
            },
        };
        let end = match count_under(v, "end") {
            Some(n) => n,
            None => {
                return None;
            },
        };
        let cited = match text(v, "text") {
            Some(t) => t,
            None => {
                return None;
            },
        };
        match texts_under(v, "document_ids") {
            Some(document_ids) => Some(Citation { start, end, text: cited, document_ids }),
            None => None,
        }
    }
}

/// A document is read from an object with an `id`.
impl Decode for Document {
    open spec fn shape(v: ValueView) -> bool {
        v is Object && text_at(v, "id"@) is Some
    }

    /// Whether `self` is what `v` reads as: the id is read from `id`, and
    /// every other member is kept as it is, once.
    open spec fn reads(self, v: ValueView) -> bool {
        &&& text_at(v, "id"@) == Some(self.id@)
        &&& members_view(self.additional_prop@) == v->Object_0.remove("id"@)
        &&& distinct_keys(self.additional_prop@)
    }

    fn decode(v: &Value) -> (read: Option<Self>) {
        let id = match text(v, "id") {
            Some(t) => t,
            None => {
                return None;
            },
        };
        match v.as_object() {
            Some(members) => {
                let mut rest: Vec<Member> = Vec::new();
                let mut i: usize = 0;
                proof {
                    lemma_settled_ends(members@);
                    assert(members_view(rest@) =~= settled(members@, 0).remove("id"@));
                }
                while i < members.len()
                    invariant
                        i <= members.len(),
                        members_view(rest@) == settled(members@, i as int).remove("id"@),
                        forall|x: int|
                            0 <= x < rest.len() ==> settled(members@, i as int).contains_key(
                                (#[trigger] rest[x]).key@,
                            ),
                        distinct_keys(rest@),
                    decreases members.len() - i,
                {
                    proof {
                        lemma_settled_step(members@, i as int);
                    }
                    if is_last(members, i) && !str_eq(members[i].key.as_str(), "id") {
                        let m = members[i].clone();
                        proof {
                            lemma_members_view_push(rest@, m);
                            assert(settled(members@, i + 1).remove("id"@) =~= settled(
                                members@,
                                i as int,
                            ).remove("id"@).insert(m.key@, m.value@));
                        }
                        rest.push(m);
                    } else {
                        assert(settled(members@, i + 1).remove("id"@) =~= settled(
                            members@,
                            i as int,
                        ).remove("id"@));
                    }
                    i = i + 1;
                }
                proof {
                    lemma_settled_ends(members@);
                }
                Some(Document { id, additional_prop: rest })
            },
            None => None,
        }
    }
}

/// A search query is read from an object with its `text` and its
/// `generation_id`.
impl Decode for SearchQuery {
    open spec fn shape(v: ValueView) -> bool {
        text_at(v, "text"@) is Some && text_at(v, "generation_id"@) is Some
    }

    open spec fn reads(self, v: ValueView) -> bool {
        &&& text_at(v, "text"@) == Some(self.text@)
        &&& text_at(v, "generation_id"@) == Some(self.generation_id@)
    }

    fn decode(v: &Value) -> (read: Option<Self>) {
        let query = match text(v, "text") {
            Some(t) => t,
            None => {
                return None;
            },
        };
        match text(v, "generation_id") {
            Some(generation_id) => Some(SearchQuery { text: query, generation_id }),
            None => None,
        }
    }
}

/// A connector is read from an object with an `id`.
impl Decode for Connector {
    open spec fn shape(v: ValueView) -> bool {
        text_at(v, "id"@) is Some
    }

    open spec fn reads(self, v: ValueView) -> bool {
        text_at(v, "id"@) == Some(self.id@)
    }

    fn decode(v: &Value) -> (read: Option<Self>) {
        match text(v, "id") {
            Some(id) => Some(Connector { id }),
            None => None,
        }
    }
}

/// A search result is read from an object with its `search_query`, its
/// `connector` and its `document_ids`; the `error_message` may be missing or
/// `null`, and `continue_on_failure` may be missing, and is then `false`.
impl Decode for SearchResult {
    open spec fn shape(v: ValueView) -> bool {
        &&& v.member("search_query"@) matches Some(q) && SearchQuery::shape(q)
        &&& v.member("connector"@) matches Some(c) && Connector::shape(c)
        &&& texts_at(v, "document_ids"@) is Some
        &&& optional_text_at(v, "error_message"@) is Some
        &&& default_flag_at(v, "continue_on_failure"@) is Some
    }

    open spec fn reads(self, v: ValueView) -> bool {
        &&& v.member("search_query"@) matches Some(q) && self.search_query.reads(q)
        &&& v.member("connector"@) matches Some(c) && self.connector.reads(c)
        &&& texts_at(v, "document_ids"@) == Some(views(self.document_ids@))
        &&& optional_text_at(v, "error_message"@) == Some(
            match self.error_message {
                Some(t) => Some(t@),
                None => None,
            },
        )
        &&& default_flag_at(v, "continue_on_failure"@) == Some(self.continue_on_failure)
    }

    fn decode(v: &Value) -> (read: Option<Self>) {
        let search_query = match v.get("search_query") {
            Some(q) => match SearchQuery::decode(q) {
                Some(query) => query,
                None => {
                    return None;
                },
            },
            None => {
                return None;
            },
        };
        let connector = match v.get("connector") {
            Some(c) => match Connector::decode(c) {
                Some(connector) => connector,
                None => {
                    return None;
                },
            },
            None => {
                return None;
            },
        };
        let document_ids = match texts_under(v, "document_ids") {
            Some(ids) => ids,
            None => {
                return None;
            },
        };
        let error_message = match optional_text(v, "error_message") {
            Some(m) => m,
            None => {
                return None;
            },
        };
        match default_flag(v, "continue_on_failure") {
            Some(continue_on_failure) => Some(
                SearchResult {
                    search_query,
                    connector,
                    document_ids,
                    error_message,
                    continue_on_failure,
                },
            ),
            None => None,
        }
    }
}

/// A tool call is read from an object with its `name` and its `parameters`,
/// which may be any value.
impl Decode for ToolCall {
    open spec fn shape(v: ValueView) -> bool {
        text_at(v, "name"@) is Some && v.member("parameters"@) is Some
    }

    open spec fn reads(self, v: ValueView) -> bool {
        &&& text_at(v, "name"@) == Some(self.name@)
        &&& v.member("parameters"@) == Some(self.parameters@)
    }

    fn decode(v: &Value) -> (read: Option<Self>) {
        let name = match text(v, "name") {
            Some(t) => t,
            None => {
                return None;
            },
        };
        match v.get("parameters") {
            Some(parameters) => Some(ToolCall { name, parameters: parameters.clone() }),
            None => None,
        }
    }
}

/// A history entry is read from an object with its `role` and its `message`.
impl Decode for ChatHistory {
    open spec fn shape(v: ValueView) -> bool {
        text_at(v, "role"@) is Some && text_at(v, "message"@) is Some
    }

    open spec fn reads(self, v: ValueView) -> bool {
        &&& text_at(v, "role"@) == Some(self.role@)
        &&& text_at(v, "message"@) == Some(self.message@)
    }

    fn decode(v: &Value) -> (read: Option<Self>) {
        let role = match text(v, "role") {
            Some(t) => t,
            None => {
                return None;
            },
        };
        match text(v, "message") {
            Some(message) => Some(ChatHistory { role, message }),
            None => None,
        }
    }
}

/// A completion is read from an object with its `text`, its `generation_id`
/// and its `finish_reason`.
impl Decode for CompletionResponse {
    /// Whether `v` can be read as one: the text, the generation id and the
    /// finish reason must be there; the lists may be missing, and are then
    /// empty.
    open spec fn shape(v: ValueView) -> bool {
        &&& text_at(v, "text"@) is Some
        &&& text_at(v, "generation_id"@) is Some
        &&& default_list_shape::<Citation>(v.member("citations"@))
        &&& default_list_shape::<Document>(v.member("documents"@))
        &&& optional_flag_at(v, "is_search_required"@) is Some
        &&& default_list_shape::<SearchQuery>(v.member("search_queries"@))
        &&& default_list_shape::<SearchResult>(v.member("search_results"@))
        &&& text_at(v, "finish_reason"@) is Some
        &&& default_list_shape::<ToolCall>(v.member("tool_calls"@))
        &&& default_list_shape::<ChatHistory>(v.member("chat_history"@))
    }

    open spec fn reads(self, v: ValueView) -> bool {
        &&& text_at(v, "text"@) == Some(self.text@)
        &&& text_at(v, "generation_id"@) == Some(self.generation_id@)
        &&& default_list_reads(self.citations@, v.member("citations"@))
        &&& default_list_reads(self.documents@, v.member("documents"@))
        &&& optional_flag_at(v, "is_search_required"@) == Some(self.is_search_required)
        &&& default_list_reads(self.search_queries@, v.member("search_queries"@))
        &&& default_list_reads(self.search_results@, v.member("search_results"@))
        &&& text_at(v, "finish_reason"@) == Some(self.finish_reason@)
        &&& default_list_reads(self.tool_calls@, v.member("tool_calls"@))
        &&& default_list_reads(self.chat_history@, v.member("chat_history"@))
    }

    fn decode(v: &Value) -> (read: Option<Self>) {
        let answer = match text(v, "text") {
            Some(t) => t,
            None => {
                return None;
            },
        };
        let generation_id = match text(v, "generation_id") {
            Some(t) => t,
            None => {
                return None;
            },
        };
        let citations = match default_list::<Citation>(v, "citations") {
            Some(list) => list,
            None => {
                return None;
            },
        };
        let documents = match default_list::<Document>(v, "documents") {
            Some(list) => list,
            None => {
                return None;
            },
        };
        let is_search_required = match optional_flag(v, "is_search_required") {
            Some(flag) => flag,
            None => {
                return None;
            },
        };
        let search_queries = match default_list::<SearchQuery>(v, "search_queries") {
            Some(list) => list,
            None => {
                return None;
            },
        };
        let search_results = match default_list::<SearchResult>(v, "search_results") {
            Some(list) => list,
            None => {
                return None;
            },
        };
        let finish_reason = match text(v, "finish_reason") {
            Some(t) => t,
            None => {
                return None;
            },
        };
        let tool_calls = match default_list::<ToolCall>(v, "tool_calls") {
            Some(list) => list,
            None => {
                return None;
            },
        };
        match default_list::<ChatHistory>(v, "chat_history") {
            Some(chat_history) => Some(
                CompletionResponse {
                    text: answer,
                    generation_id,
                    citations,
                    documents,
                    is_search_required,
                    search_queries,
                    search_results,
                    finish_reason,
                    tool_calls,
                    chat_history,
                },
            ),
            None => None,
        }
    }
}

/// A version is read from an object with its `version`; the two flags may be
/// missing or `null`.
impl Decode for ApiVersion {
    open spec fn shape(v: ValueView) -> bool {
        &&& text_at(v, "version"@) is Some
        &&& optional_flag_at(v, "is_deprecated"@) is Some
        &&& optional_flag_at(v, "is_experimental"@) is Some
    }

    open spec fn reads(self, v: ValueView) -> bool {
        &&& text_at(v, "version"@) == Some(self.version@)
        &&& optional_flag_at(v, "is_deprecated"@) == Some(self.is_deprecated)
        &&& optional_flag_at(v, "is_experimental"@) == Some(self.is_experimental)
    }

    fn decode(v: &Value) -> (read: Option<Self>) {
        let version = match text(v, "version") {
            Some(t) => t,
            None => {
                return None;
            },
        };
        let is_deprecated = match optional_flag(v, "is_deprecated") {
            Some(flag) => flag,
            None => {
                return None;
            },
        };
        match optional_flag(v, "is_experimental") {
            Some(is_experimental) => Some(ApiVersion { version, is_deprecated, is_experimental }),
            None => None,
        }
    }
}

/// Billed units are read from an object of counts.
impl Decode for BilledUnits {
    /// Whether `v` can be read as one: an object, in which each count may be
    /// missing, and is then 0.
    open spec fn shape(v: ValueView) -> bool {
        &&& v is Object
        &&& default_count_at(v, "input_tokens"@) is Some
        &&& default_count_at(v, "output_tokens"@) is Some
        &&& default_count_at(v, "search_units"@) is Some
        &&& default_count_at(v, "classifications"@) is Some
    }

    open spec fn reads(self, v: ValueView) -> bool {
        &&& default_count_at(v, "input_tokens"@) == Some(self.input_tokens)
        &&& default_count_at(v, "output_tokens"@) == Some(self.output_tokens)
        &&& default_count_at(v, "search_units"@) == Some(self.search_units)
        &&& default_count_at(v, "classifications"@) == Some(self.classifications)
    }

    fn decode(v: &Value) -> (read: Option<Self>) {
        if v.as_object().is_none() {
            return None;
        }
        let input_tokens = match default_count(v, "input_tokens") {
            Some(n) => n,
            None => {
                return None;
            },
        };
        let output_tokens = match default_count(v, "output_tokens") {
            Some(n) => n,
            None => {
                return None;
            },
        };
        let search_units = match default_count(v, "search_units") {
            Some(n) => n,
            None => {
                return None;
            },
        };
        match default_count(v, "classifications") {
            Some(classifications) => Some(
                BilledUnits { input_tokens, output_tokens, search_units, classifications },
            ),
            None => None,
        }
    }
}

/// Meta information is read from an object with its `api_version` and its
/// `billed_units`; the `warnings` may be missing, and are then none.
impl Decode for Meta {
    open spec fn shape(v: ValueView) -> bool {
        &&& v.member("api_version"@) matches Some(a) && ApiVersion::shape(a)
        &&& v.member("billed_units"@) matches Some(b) && BilledUnits::shape(b)
        &&& default_texts_at(v, "warnings"@) is Some
    }

    open spec fn reads(self, v: ValueView) -> bool {
        &&& v.member("api_version"@) matches Some(a) && self.api_version.reads(a)
        &&& v.member("billed_units"@) matches Some(b) && self.billed_units.reads(b)
        &&& default_texts_at(v, "warnings"@) == Some(views(self.warnings@))
    }

    fn decode(v: &Value) -> (read: Option<Self>) {
        let api_version = match v.get("api_version") {
            Some(a) => match ApiVersion::decode(a) {
                Some(version) => version,
                None => {
                    return None;
                },
            },
            None => {
                return None;
            },
        };
        let billed_units = match v.get("billed_units") {
            Some(b) => match BilledUnits::decode(b) {
                Some(units) => units,
                None => {
                    return None;
                },
            },
            None => {
                return None;
            },
        };
        match default_texts(v, "warnings") {
            Some(warnings) => Some(Meta { api_version, billed_units, warnings }),
            None => None,
        }
    }
}

/// An embedding response is read from an object with its `id`, its
/// `embeddings` and its `texts`.
impl Decode for EmbeddingResponse {
    /// Whether `v` can be read as one: the id, the vectors and the texts must
    /// be there; the response type and the meta information may be missing
    /// or `null`.
    open spec fn shape(v: ValueView) -> bool {
        &&& optional_text_at(v, "response_type"@) is Some
        &&& text_at(v, "id"@) is Some
        &&& v.member("embeddings"@) matches Some(e) && list_shape::<Vec<Number>>(e)
        &&& texts_at(v, "texts"@) is Some
        &&& match v.member("meta"@) {
            None => true,
            Some(ValueView::Null) => true,
            Some(m) => Meta::shape(m),
        }
    }

    open spec fn reads(self, v: ValueView) -> bool {
        &&& optional_text_at(v, "response_type"@) == Some(
            match self.response_type {
                Some(t) => Some(t@),
                None => None,
            },
        )
        &&& text_at(v, "id"@) == Some(self.id@)
        &&& v.member("embeddings"@) matches Some(e) && list_reads(self.embeddings@, e)
        &&& texts_at(v, "texts"@) == Some(views(self.texts@))
        &&& match v.member("meta"@) {
            None => self.meta is None,
            Some(ValueView::Null) => self.meta is None,
            Some(m) => self.meta matches Some(meta) && meta.reads(m),
        }
    }

    fn decode(v: &Value) -> (read: Option<Self>) {
        let response_type = match optional_text(v, "response_type") {
            Some(t) => t,
            None => {
                return None;
            },
        };
        let id = match text(v, "id") {
            Some(t) => t,
            None => {
                return None;
            },
        };
        let embeddings = match v.get("embeddings") {
            Some(e) => match list::<Vec<Number>>(e) {
                Some(list) => list,
                None => {
                    return None;
                },
            },
            None => {
                return None;
            },
        };
        let echoed = match texts_under(v, "texts") {
            Some(t) => t,
            None => {
                return None;
            },
        };
        let meta = match v.get("meta") {
            None => None,
            Some(Value::Null) => None,
            Some(m) => match Meta::decode(m) {
                Some(meta) => Some(meta),
                None => {
                    return None;
                },
            },
        };
        Some(EmbeddingResponse { response_type, id, embeddings, texts: echoed, meta })
    }
}

/// An error is read from an object with a `message`.
impl Decode for ApiErrorResponse {
    open spec fn shape(v: ValueView) -> bool {
        text_at(v, "message"@) is Some
    }

    open spec fn reads(self, v: ValueView) -> bool {
        text_at(v, "message"@) == Some(self.message@)
    }

    fn decode(v: &Value) -> (read: Option<Self>) {
        match text(v, "message") {
            Some(message) => Some(ApiErrorResponse { message }),
            None => None,
        }
    }
}

/// The text of the error that a reply without a payload is reported with:
/// the `message` of the answer where the status was one of success and the
/// answer is JSON with such a member, else the body of the answer as it came.
pub open spec fn refusal_text(success: bool, body: Seq<char>, json: Option<Value>) -> Seq<char> {
    if success && json is Some && text_at(json->Some_0@, "message"@) is Some {
        text_at(json->Some_0@, "message"@)->Some_0
    } else {
        body
    }
}

/// Reads the answer to a chat request: as a completion where it has the
/// shape of one, else as an error where it has the shape of one.
pub fn decode_completion(v: &Value) -> (read: Option<ApiResponse<CompletionResponse>>)
    ensures
        match read {
            Some(ApiResponse::Success(r)) => CompletionResponse::shape(v@) && r.reads(v@),
            Some(ApiResponse::Failure(e)) => !CompletionResponse::shape(v@) && ApiErrorResponse::shape(
                v@,
            ) && e.reads(v@),
            None => !CompletionResponse::shape(v@) && !ApiErrorResponse::shape(v@),
        },
{
    match CompletionResponse::decode(v) {
        Some(r) => Some(ApiResponse::Success(r)),
        None => match ApiErrorResponse::decode(v) {
            Some(e) => Some(ApiResponse::Failure(e)),
            None => None,
        },
    }
}

/// Reads the answer to a request for embeddings: as embeddings where it has
/// the shape of them, else as an error where it has the shape of one.
pub fn decode_embeddings(v: &Value) -> (read: Option<ApiResponse<EmbeddingResponse>>)
    ensures
        match read {
            Some(ApiResponse::Success(r)) => EmbeddingResponse::shape(v@) && r.reads(v@),
            Some(ApiResponse::Failure(e)) => !EmbeddingResponse::shape(v@) && ApiErrorResponse::shape(
                v@,
            ) && e.reads(v@),
            None => !EmbeddingResponse::shape(v@) && !ApiErrorResponse::shape(v@),
        },
{
    match EmbeddingResponse::decode(v) {
        Some(r) => Some(ApiResponse::Success(r)),
        None => match ApiErrorResponse::decode(v) {
            Some(e) => Some(ApiResponse::Failure(e)),
            None => None,
        },
    }
}

} // verus!

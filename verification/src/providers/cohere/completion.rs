//! Cohere's chat service: the models it offers, how a completion request is
//! written for it, and how its answer is read as a completion response.

use vstd::prelude::*;
use crate::completion;
use crate::completion::{
    documents_json, documents_to_json, first_failure, lemma_first_failure_exists,
    lemma_first_failure_from, CompletionError, CompletionRequest,
};
use crate::decode::Decode;
use crate::json::{
    lemma_items_view, lemma_merged_member, merge, merged, push_member, Member, Number, Value,
    ValueView,
};
use crate::message;
use crate::message::{AssistantContent, AssistantContentView, MessageError};
use crate::one_or_many::OneOrMany;
use crate::providers::cohere::client::{endpoint, Client};
use crate::providers::cohere::decode::{decode_completion, refusal_text, ApiResponse};
use crate::providers::cohere::embedding::{units_in, BilledUnits};
use crate::providers::cohere::message::{
    messages_json, messages_to_json, part_texts, representable, text_parts, turns, unsupported,
    Message, MessageView, ToolCall, ToolCallView,
};
use crate::providers::cohere::tool::{
    conversion_failure, converted, convertible, tool_json, ToolDefinition,
};
use crate::text::{join, joined};
use crate::transport::{HttpReply, HttpRequest, HttpRequestView};
use crate::views::views;

verus! {

/// `command-r-plus` completion model
pub const COMMAND_R_PLUS: &'static str = "comman-r-plus";

/// `command-r` completion model
pub const COMMAND_R: &'static str = "command-r";

/// `command` completion model
pub const COMMAND: &'static str = "command";

/// `command-nightly` completion model
pub const COMMAND_NIGHTLY: &'static str = "command-nightly";

/// `command-light` completion model
pub const COMMAND_LIGHT: &'static str = "command-light";

/// `command-light-nightly` completion model
pub const COMMAND_LIGHT_NIGHTLY: &'static str = "command-light-nightly";

/// The path of the chat service below the base address.
pub const CHAT_PATH: &'static str = "v1/chat";

/// What Cohere answers to a chat request.
#[derive(Debug, Clone, PartialEq, Eq)]
pub struct CompletionResponse {
    pub text: String,
    pub generation_id: String,
    pub citations: Vec<Citation>,
    pub documents: Vec<Document>,
    pub is_search_required: Option<bool>,
    pub search_queries: Vec<SearchQuery>,
    pub search_results: Vec<SearchResult>,
    pub finish_reason: String,
    pub tool_calls: Vec<ToolCall>,
    pub chat_history: Vec<ChatHistory>,
}

/// A stretch of the answer and the documents that back it.
#[derive(Debug, Clone, PartialEq, Eq)]
pub struct Citation {
    pub start: u32,
    pub end: u32,
    pub text: String,
    pub document_ids: Vec<String>,
}

/// A document that the answer refers to: its id, and whatever else Cohere
/// says of it.
#[derive(Debug, Clone, PartialEq, Eq)]
pub struct Document {
    pub id: String,
    pub additional_prop: Vec<Member>,
}

/// A search that Cohere made for the answer.
#[derive(Debug, Clone, PartialEq, Eq)]
pub struct SearchQuery {
    pub text: String,
    pub generation_id: String,
}

/// What a search gave.
#[derive(Debug, Clone, PartialEq, Eq)]
pub struct SearchResult {
    pub search_query: SearchQuery,
    pub connector: Connector,
    pub document_ids: Vec<String>,
    pub error_message: Option<String>,
    pub continue_on_failure: bool,
}

/// The connector that a search went through.
#[derive(Debug, Clone, PartialEq, Eq)]
pub struct Connector {
    pub id: String,
}

/// One entry of the history that Cohere hands back.
#[derive(Debug, Clone, PartialEq, Eq)]
pub struct ChatHistory {
    pub role: String,
    pub message: String,
}

/// The tool call that a call of Cohere's stands for. Cohere gives a call no
/// id of its own, so the tool's name is taken for it.
pub open spec fn canonical_call(call: ToolCallView) -> AssistantContentView {
    AssistantContentView::ToolCall { id: call.name, name: call.name, arguments: call.parameters }
}

/// The content of the answer: the tool calls alone where there are any, the
/// text alone where there are none.
pub open spec fn choice_of(text: Seq<char>, tool_calls: Seq<ToolCallView>) -> Seq<
    AssistantContentView,
> {
    if tool_calls.len() > 0 {
        Seq::new(tool_calls.len(), |i: int| canonical_call(tool_calls[i]))
    } else {
        seq![AssistantContentView::Text(text)]
    }
}

impl ToolCall {
    /// The call as a part of an assistant's answer.
    pub fn to_canonical(&self) -> (part: AssistantContent)
        ensures
            part@ == canonical_call(self@),
            part is ToolCall,
    {
        AssistantContent::tool_call(self.name.clone(), self.name.clone(), self.parameters.clone())
    }
}

impl CompletionResponse {
    /// Reads Cohere's answer as a completion response.
    ///
    /// Where the answer holds tool calls, the response consists of them, in
    /// order, and the answer's text is left out; where it holds none, the
    /// response is the text alone. The answer itself is kept beside it.
    pub fn into_canonical(self) -> (response: completion::CompletionResponse<CompletionResponse>)
        ensures
            response.raw_response == self,
            views(response.choice@) == choice_of(self.text@, views(self.tool_calls@)),
            self.tool_calls.len() > 0 ==> forall|i: int|
                0 <= i < response.choice@.len() ==> #[trigger] response.choice@[i] is ToolCall,
            self.tool_calls.len() == 0 ==> response.choice@.len() == 1 && response.choice@[0] is Text,
    {
        let choice = if self.tool_calls.len() > 0 {
            let first = self.tool_calls[0].to_canonical();
            let mut rest: Vec<AssistantContent> = Vec::new();
            let mut i: usize = 1;
            while i < self.tool_calls.len()
                invariant
                    1 <= i <= self.tool_calls.len(),
                    rest.len() == i - 1,
                    forall|k: int| 0 <= k < i - 1 ==> (#[trigger] rest[k])@ == canonical_call(self.tool_calls[k + 1]@),
                    forall|k: int| 0 <= k < i - 1 ==> (#[trigger] rest[k]) is ToolCall,
                decreases self.tool_calls.len() - i,
            {
                rest.push(self.tool_calls[i].to_canonical());
                i = i + 1;
            }
            let choice = OneOrMany { first, rest };
            assert(views(choice@) =~= choice_of(self.text@, views(self.tool_calls@))) by {
                assert forall|k: int| 0 <= k < choice@.len() implies views(choice@)[k] == choice_of(
                    self.text@,
                    views(self.tool_calls@),
                )[k] by {
                    if k > 0 {
                        assert(choice@[k] == rest[k - 1]);
                    }
                }
            }
            assert forall|k: int| 0 <= k < choice@.len() implies #[trigger] choice@[k] is ToolCall by {
                if k > 0 {
                    assert(choice@[k] == rest[k - 1]);
                }
            }
            choice
        } else {
            let choice = OneOrMany::one(AssistantContent::text(self.text.clone()));
            assert(views(choice@) =~= choice_of(self.text@, views(self.tool_calls@)));
            choice
        };
        completion::CompletionResponse { choice, raw_response: self }
    }
}

/// What cannot be sent of a message, where it cannot be sent.
pub open spec fn message_failure(m: message::Message) -> Option<Seq<char>> {
    if representable(m) {
        None
    } else {
        Some(unsupported(m))
    }
}

/// What cannot be sent of a tool definition, where it cannot be sent.
pub open spec fn tool_failure(tool: completion::ToolDefinition) -> Option<Seq<char>> {
    if convertible(tool.parameters@) {
        None
    } else {
        Some(conversion_failure(tool.parameters@))
    }
}

/// What cannot be sent of each message of a history.
pub open spec fn history_failures(history: Seq<message::Message>) -> Seq<Option<Seq<char>>> {
    Seq::new(history.len(), |i: int| message_failure(history[i]))
}

/// What cannot be sent of each tool definition of a list.
pub open spec fn tool_failures(tools: Seq<completion::ToolDefinition>) -> Seq<Option<Seq<char>>> {
    Seq::new(tools.len(), |i: int| tool_failure(tools[i]))
}

/// What cannot be sent of a temperature, where it cannot be sent: one that
/// is not well formed has no way to be written as JSON.
pub open spec fn temperature_failure(temperature: Option<Number>) -> Option<Seq<char>> {
    match temperature {
        Some(n) => if n.well_formed() {
            None
        } else {
            Some("Temperature should be a well-formed number"@)
        },
        None => None,
    }
}

/// Why a request cannot be sent, where it cannot: what is wrong with the
/// first message of the history that cannot be sent; where all can, with the
/// prompt; where that can too, with the first tool definition that cannot;
/// and where all of them can, with the temperature.
pub open spec fn request_failure(request: CompletionRequest) -> Option<Seq<char>> {
    if first_failure(history_failures(request.chat_history@)) is Some {
        first_failure(history_failures(request.chat_history@))
    } else if message_failure(request.prompt) is Some {
        message_failure(request.prompt)
    } else if first_failure(tool_failures(request.tools@)) is Some {
        first_failure(tool_failures(request.tools@))
    } else {
        temperature_failure(request.temperature)
    }
}

/// The Cohere messages that a history is sent as: those of each message, one
/// after another.
pub open spec fn history_turns(history: Seq<message::Message>) -> Seq<MessageView>
    decreases history.len(),
{
    if history.len() == 0 {
        Seq::empty()
    } else {
        history_turns(history.drop_last()) + turns(history.last())
    }
}

/// The one text that a prompt is sent as: the texts of its parts, each on a
/// line of its own.
pub open spec fn prompt_text(prompt: message::Message) -> Seq<char> {
    joined(part_texts(prompt->User_content@), "\n"@)
}

/// The tool definitions as a JSON array of Cohere's declarations.
pub open spec fn tools_json(tools: Seq<completion::ToolDefinition>) -> ValueView {
    ValueView::Array(Seq::new(tools.len(), |i: int| tool_json(converted(tools[i]))))
}

/// A text, or `null` where there is none.
pub open spec fn optional_text(text: Option<String>) -> ValueView {
    match text {
        Some(t) => ValueView::String(t@),
        None => ValueView::Null,
    }
}

/// A number, or `null` where there is none.
pub open spec fn optional_number(number: Option<Number>) -> ValueView {
    match number {
        Some(n) => ValueView::Number(n),
        None => ValueView::Null,
    }
}

/// The body that the adapter generates for a request that can be sent.
pub open spec fn generated_body(model: Seq<char>, request: CompletionRequest) -> ValueView {
    ValueView::Object(
        Map::empty().insert("model"@, ValueView::String(model)).insert(
            "preamble"@,
            optional_text(request.preamble),
        ).insert("message"@, ValueView::String(prompt_text(request.prompt))).insert(
            "documents"@,
            documents_json(request.documents@),
        ).insert("chat_history"@, messages_json(history_turns(request.chat_history@))).insert(
            "temperature"@,
            optional_number(request.temperature),
        ).insert("tools"@, tools_json(request.tools@)),
    )
}

/// The body that is sent: the generated one, with the request's additional
/// parameters, where it has any, laid over it.
pub open spec fn wire_body(model: Seq<char>, request: CompletionRequest) -> ValueView {
    match request.additional_params {
        Some(params) => merged(generated_body(model, request), params@),
        None => generated_body(model, request),
    }
}

/// Additional parameters override. Where the additional parameters of a
/// request are an object with a member that is no object, the body that is
/// sent holds that member as the additional parameters have it, whatever
/// the adapter generated under the same key.
pub proof fn lemma_additional_params_override(
    model: Seq<char>,
    request: CompletionRequest,
    key: Seq<char>,
)
    requires
        request.additional_params matches Some(params) && params@ is Object,
        request.additional_params->Some_0@.member(key) matches Some(v) && !(v is Object),
    ensures
        wire_body(model, request).member(key) == request.additional_params->Some_0@.member(key),
{
    lemma_merged_member(generated_body(model, request), request.additional_params->Some_0@, key);
}

/// Additional parameters leave alone what they do not name. Where the
/// additional parameters of a request are an object without a member under
/// `key`, the body that is sent holds under `key` what the adapter generated.
pub proof fn lemma_additional_params_keep(model: Seq<char>, request: CompletionRequest, key: Seq<char>)
    requires
        request.additional_params matches Some(params) && params@ is Object,
        request.additional_params->Some_0@.member(key) is None,
    ensures
        wire_body(model, request).member(key) == generated_body(model, request).member(key),
{
    lemma_merged_member(generated_body(model, request), request.additional_params->Some_0@, key);
}

/// Tool calls exclude text. Where Cohere's answer holds at least one tool
/// call, the content of the response holds one tool call for each, in
/// order, and nothing else, whatever text the answer holds beside them.
pub proof fn lemma_tool_calls_exclude_text(text: Seq<char>, tool_calls: Seq<ToolCallView>)
    requires
        tool_calls.len() > 0,
    ensures
        choice_of(text, tool_calls).len() == tool_calls.len(),
        forall|i: int|
            0 <= i < tool_calls.len() ==> #[trigger] choice_of(text, tool_calls)[i]
                == canonical_call(tool_calls[i]),
        forall|i: int|
            0 <= i < tool_calls.len() ==> #[trigger] choice_of(text, tool_calls)[i] is ToolCall,
{
}

/// Without tool calls the content of the response is the text alone.
pub proof fn lemma_text_alone(text: Seq<char>)
    ensures
        choice_of(text, Seq::empty()) == seq![AssistantContentView::Text(text)],
{
}

/// Unsupported content is refused. A request whose prompt, or any message
/// of whose history, is no user message of text parts only cannot be sent:
/// there is a failure to report, and so no POST to make.
pub proof fn lemma_unsupported_content_is_refused(request: CompletionRequest)
    requires
        !representable(request.prompt) || exists|i: int|
            0 <= i < request.chat_history@.len() && !representable(
                #[trigger] request.chat_history@[i],
            ),
    ensures
        request_failure(request) is Some,
{
    let outcomes = history_failures(request.chat_history@);
    lemma_first_failure_exists(outcomes);
    if exists|i: int|
        0 <= i < request.chat_history@.len() && !representable(#[trigger] request.chat_history@[i]) {
        let i = choose|i: int|
            0 <= i < request.chat_history@.len() && !representable(
                #[trigger] request.chat_history@[i],
            );
        assert(outcomes[i] is Some);
    }
}

/// A user message with a part that is no text, such as an image, is not
/// representable.
pub proof fn lemma_non_text_part_is_unsupported(m: message::Message, i: int)
    requires
        m is User,
        0 <= i < m->User_content@.len(),
        !(m->User_content@[i] is Text),
    ensures
        !representable(m),
        message_failure(m) == Some("Only text content is supported by Cohere"@),
{
}

/// A completion model of Cohere, reached through a client.
#[derive(Debug, Clone, PartialEq, Eq)]
pub struct CompletionModel {
    pub client: Client,
    pub model: String,
}

/// The history as Cohere messages, or what is wrong with the first message
/// that cannot be sent.
fn convert_history(history: &Vec<message::Message>) -> (converted: Result<Vec<Message>, CompletionError>)
    ensures
        match converted {
            Ok(messages) => first_failure(history_failures(history@)) is None && views(messages@)
                == history_turns(history@),
            Err(e) => e is ConversionError && first_failure(history_failures(history@)) == Some(
                e.reason(),
            ),
        },
{
    let mut out: Vec<Message> = Vec::new();
    let mut i: usize = 0;
    assert(history@.take(0) =~= Seq::empty());
    assert(views(out@) =~= Seq::<MessageView>::empty());
    while i < history.len()
        invariant
            i <= history.len(),
            forall|k: int| 0 <= k < i ==> #[trigger] history_failures(history@)[k] is None,
            views(out@) == history_turns(history@.take(i as int)),
        decreases history.len() - i,
    {
        proof {
            lemma_first_failure_from(history_failures(history@), i as int);
            assert(history@.take(i + 1).drop_last() =~= history@.take(i as int));
        }
        match Message::try_from_canonical(&history[i]) {
            Ok(mut messages) => {
                let ghost before = out@;
                let ghost added = messages@;
                out.append(&mut messages);
                assert(views(out@) =~= views(before) + views(added));
            },
            Err(e) => {
                return Err(
                    match e {
                        MessageError::ConversionError(text) => CompletionError::ConversionError(text),
                    },
                );
            },
        }
        i = i + 1;
    }
    proof {
        lemma_first_failure_from(history_failures(history@), i as int);
        assert(history@.take(history.len() as int) =~= history@);
    }
    Ok(out)
}

/// The prompt as one text, or what is wrong with it.
fn convert_prompt(prompt: &message::Message) -> (converted: Result<String, CompletionError>)
    ensures
        match converted {
            Ok(text) => message_failure(*prompt) is None && text@ == prompt_text(*prompt),
            Err(e) => e is ConversionError && message_failure(*prompt) == Some(e.reason()),
        },
{
    match prompt {
        message::Message::User { content } => match text_parts(content) {
            Some(texts) => Ok(join(&texts, "\n")),
            None => Err(
                CompletionError::ConversionError("Only text content is supported by Cohere".to_owned()),
            ),
        },
        _ => Err(
            CompletionError::ConversionError("Only user messages are supported by Cohere".to_owned()),
        ),
    }
}

/// The tool definitions as a JSON array of Cohere's declarations, or what is
/// wrong with the first that cannot be sent.
fn convert_tools(tools: &Vec<completion::ToolDefinition>) -> (converted: Result<Value, CompletionError>)
    ensures
        match converted {
            Ok(json) => first_failure(tool_failures(tools@)) is None && json@ == tools_json(tools@),
            Err(e) => e is ConversionError && first_failure(tool_failures(tools@)) == Some(
                e.reason(),
            ),
        },
{
    let mut out: Vec<Value> = Vec::new();
    let mut i: usize = 0;
    while i < tools.len()
        invariant
            i <= tools.len(),
            out.len() == i,
            forall|k: int| 0 <= k < i ==> #[trigger] tool_failures(tools@)[k] is None,
            forall|k: int| 0 <= k < i ==> (#[trigger] out[k])@ == tool_json(converted(tools[k])),
        decreases tools.len() - i,
    {
        proof {
            lemma_first_failure_from(tool_failures(tools@), i as int);
        }
        match ToolDefinition::from_canonical(&tools[i]) {
            Ok(tool) => {
                out.push(tool.to_json());
            },
            Err(e) => {
                return Err(e);
            },
        }
        i = i + 1;
    }
    proof {
        lemma_first_failure_from(tool_failures(tools@), i as int);
        lemma_items_view(out@, tools_json(tools@)->Array_0);
    }
    Ok(Value::Array(out))
}

/// Whether a reply carries a completion: its status is one of success and
/// its body is JSON of the shape of a completion.
pub open spec fn carries_completion(success: bool, json: Option<Value>) -> bool {
    success && json is Some && CompletionResponse::shape(json->Some_0@)
}

/// What a completion says, in its JSON, that the call is billed as, where
/// it says so: the billed units under `meta`.
pub open spec fn billed_units_of(json: ValueView) -> Option<BilledUnits> {
    match json.member("meta"@) {
        Some(meta) => match meta.member("billed_units"@) {
            Some(units) => if BilledUnits::shape(units) {
                Some(units_in(units))
            } else {
                None
            },
            None => None,
        },
        None => None,
    }
}

/// The record of what a completion is billed as.
pub open spec fn billing_text(units: BilledUnits) -> Seq<char> {
    "Cohere completion billed units: "@ + units.text()
}

impl CompletionModel {
    /// What there is to record of what the call cost: something for every
    /// reply that carries a completion and says what it is billed as,
    /// nothing for any other. That a reply does not say is no error.
    pub fn completion_record(reply: &HttpReply) -> (record: Option<String>)
        ensures
            match *reply {
                HttpReply::Failed { .. } => record is None,
                HttpReply::Received { success, body, json } => if carries_completion(success, json)
                    && billed_units_of(json->Some_0@) is Some {
                    record matches Some(text) && text@ == billing_text(
                        billed_units_of(json->Some_0@)->Some_0,
                    )
                } else {
                    record is None
                },
            },
    {
        match reply {
            HttpReply::Failed { .. } => None,
            HttpReply::Received { success, body, json } => {
                if !*success {
                    return None;
                }
                let answer = match json {
                    Some(j) => j,
                    None => {
                        return None;
                    },
                };
                if CompletionResponse::decode(answer).is_none() {
                    return None;
                }
                let units = match answer.get("meta") {
                    Some(meta) => match meta.get("billed_units") {
                        Some(units) => units,
                        None => {
                            return None;
                        },
                    },
                    None => {
                        return None;
                    },
                };
                match BilledUnits::decode(units) {
                    Some(billed) => {
                        let mut text = "Cohere completion billed units: ".to_owned();
                        text.append(billed.to_text().as_str());
                        Some(text)
                    },
                    None => None,
                }
            },
        }
    }

    /// The model `model` behind `client`.
    pub fn new(client: Client, model: &str) -> (m: Self)
        ensures
            m.client == client,
            m.model@ == model@,
    {
        CompletionModel { client, model: model.to_owned() }
    }

}

/// Whether `outcome` is what a reply of Cohere means for a completion.
///
/// A POST that had no answer is a transport error. A reply that carries a
/// completion is read as it, and the content of the response is that of the
/// answer: its tool calls alone, or its text alone. Any other reply is a
/// provider error: with Cohere's message where the reply has one, else with
/// the body as it came.
pub open spec fn completion_read(
    reply: HttpReply,
    outcome: Result<completion::CompletionResponse<CompletionResponse>, CompletionError>,
) -> bool {
    match reply {
        HttpReply::Failed { reason } => outcome matches Err(e) && e is TransportError && e.reason()
            == reason@,
        HttpReply::Received { success, body, json } => if carries_completion(success, json) {
            &&& outcome matches Ok(response)
            &&& response.raw_response.reads(json->Some_0@)
            &&& views(response.choice@) == choice_of(
                response.raw_response.text@,
                views(response.raw_response.tool_calls@),
            )
        } else {
            &&& outcome matches Err(e)
            &&& e is ProviderError
            &&& e.reason() == refusal_text(success, body@, json)
        },
    }
}

impl completion::CompletionModel for CompletionModel {
    type Response = CompletionResponse;

    open spec fn refusal(&self, request: CompletionRequest) -> Option<Seq<char>> {
        request_failure(request)
    }

    open spec fn completion_post(&self, request: CompletionRequest) -> HttpRequestView {
        HttpRequestView {
            url: endpoint(self.client.base_url(), CHAT_PATH@),
            authorization: "Bearer "@ + self.client.api_key(),
            body: wire_body(self.model@, request),
        }
    }

    open spec fn completion_outcome(
        &self,
        reply: HttpReply,
        outcome: Result<completion::CompletionResponse<CompletionResponse>, CompletionError>,
    ) -> bool {
        completion_read(reply, outcome)
    }

    /// The POST that asks Cohere for the completion.
    ///
    /// The history, the prompt, the tool definitions and the temperature are
    /// written in Cohere's format, in that order, and the first of them that
    /// cannot be is reported: then there is nothing to send. The body holds
    /// the model,
    /// the preamble, the prompt as one text, the documents, the history, the
    /// temperature and the tools; the additional parameters are laid over
    /// it, and win where they name a member that the body has.
    fn completion_request(&self, request: CompletionRequest) -> (prepared: Result<
        HttpRequest,
        CompletionError,
    >) {
        let chat_history = match convert_history(&request.chat_history) {
            Ok(messages) => messages,
            Err(e) => {
                return Err(e);
            },
        };
        let message = match convert_prompt(&request.prompt) {
            Ok(text) => text,
            Err(e) => {
                return Err(e);
            },
        };
        let tools = match convert_tools(&request.tools) {
            Ok(json) => json,
            Err(e) => {
                return Err(e);
            },
        };
        let temperature = match request.temperature {
            Some(n) => {
                if !n.is_well_formed() {
                    return Err(
                        CompletionError::ConversionError(
                            "Temperature should be a well-formed number".to_owned(),
                        ),
                    );
                }
                Value::Number(n)
            },
            None => Value::Null,
        };
        let mut members: Vec<Member> = Vec::new();
        push_member(&mut members, "model", Value::String(self.model.clone()));
        push_member(
            &mut members,
            "preamble",
            match &request.preamble {
                Some(text) => Value::String(text.clone()),
                None => Value::Null,
            },
        );
        push_member(&mut members, "message", Value::String(message));
        push_member(&mut members, "documents", documents_to_json(&request.documents));
        push_member(&mut members, "chat_history", messages_to_json(&chat_history));
        push_member(&mut members, "temperature", temperature);
        push_member(&mut members, "tools", tools);
        let generated = Value::Object(members);
        let body = match &request.additional_params {
            Some(params) => merge(generated, params.clone()),
            None => generated,
        };
        Ok(self.client.post(CHAT_PATH).json(body))
    }

    /// Reads what came of the POST as the outcome of the completion.
    ///
    /// A POST that had no answer is a transport error. An answer with
    /// another status than success is a provider error with the body as it
    /// came. Of an answer with a status of success, the body is read as a
    /// completion where it has the shape of one; else as an error of
    /// Cohere's, whose message is reported; else it is reported as it came.
    fn completion_response(&self, reply: HttpReply) -> (outcome: Result<
        completion::CompletionResponse<CompletionResponse>,
        CompletionError,
    >)
    {
        match reply {
            HttpReply::Failed { reason } => Err(CompletionError::TransportError(reason)),
            HttpReply::Received { success, body, json } => {
                if !success {
                    return Err(CompletionError::ProviderError(body));
                }
                match &json {
                    Some(j) => match decode_completion(j) {
                        Some(ApiResponse::Success(answer)) => Ok(answer.into_canonical()),
                        Some(ApiResponse::Failure(error)) => Err(
                            CompletionError::ProviderError(error.message),
                        ),
                        None => Err(CompletionError::ProviderError(body)),
                    },
                    None => Err(CompletionError::ProviderError(body)),
                }
            },
        }
    }
}

impl Client {
    /// The completion model `model`.
    pub fn completion_model(&self, model: &str) -> (m: CompletionModel)
        ensures
            m.client == *self,
            m.model@ == model@,
    {
        CompletionModel::new(self.clone(), model)
    }
}

} // verus!

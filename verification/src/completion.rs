//! The provider-independent completion model: tool definitions, requests,
//! responses and the errors of a completion.

use vstd::prelude::*;
use crate::json::{
    items_view, lemma_items_view, members_view, push_member, Member, Number, Value, ValueView,
};
use crate::message::{AssistantContent, Message};
use crate::one_or_many::OneOrMany;
use crate::transport::{HttpReply, HttpRequest, HttpRequestView};

verus! {

/// A tool that a model may call: its name, what it does, and the JSON schema
/// of its arguments (an object with `properties` and, optionally, `required`).
#[derive(Debug, Clone, PartialEq, Eq)]
pub struct ToolDefinition {
    pub name: String,
    pub description: String,
    pub parameters: Value,
}

/// The names that a schema lists under `required`; what is listed there and
/// is no string is passed over.
pub open spec fn required_names(schema: ValueView) -> Set<Seq<char>> {
    match schema.member("required"@) {
        Some(ValueView::Array(names)) => Set::new(
            |name: Seq<char>| names.contains(ValueView::String(name)),
        ),
        _ => Set::empty(),
    }
}

impl ToolDefinition {
    /// Whether the schema holds together: its `properties` are an object,
    /// and every name that it lists as required is one of them.
    pub open spec fn well_formed(&self) -> bool {
        &&& self.parameters@.member("properties"@) matches Some(ValueView::Object(properties))
        &&& forall|name: Seq<char>| #[trigger]
            required_names(self.parameters@).contains(name) ==> properties.contains_key(name)
    }

    /// Whether the schema holds together.
    pub fn is_well_formed(&self) -> (ok: bool)
        ensures
            ok == self.well_formed(),
    {
        let properties = match self.parameters.get("properties") {
            Some(p) => match p.as_object() {
                Some(_) => p,
                None => {
                    return false;
                },
            },
            None => {
                return false;
            },
        };
        let names = match self.parameters.get("required") {
            Some(listed) => match listed.as_array() {
                Some(names) => names,
                None => {
                    return true;
                },
            },
            None => {
                return true;
            },
        };
        let ghost listed = items_view(names@);
        let ghost declared = properties@->Object_0;
        let mut i: usize = 0;
        while i < names.len()
            invariant
                i <= names.len(),
                listed == items_view(names@),
                declared == properties@->Object_0,
                properties@ is Object,
                self.parameters@.member("properties"@) == Some(properties@),
                self.parameters@.member("required"@) == Some(ValueView::Array(listed)),
                forall|k: int|
                    0 <= k < i ==> (#[trigger] listed[k] is String ==> declared.contains_key(
                        listed[k]->String_0,
                    )),
            decreases names.len() - i,
        {
            match names[i].as_str() {
                Some(name) => {
                    if properties.get(name).is_none() {
                        proof {
                            assert(listed[i as int] == ValueView::String(name@));
                            assert(listed.contains(ValueView::String(name@)));
                            assert(required_names(self.parameters@).contains(name@));
                        }
                        return false;
                    }
                },
                None => {},
            }
            i = i + 1;
        }
        proof {
            assert forall|name: Seq<char>| #[trigger]
                required_names(self.parameters@).contains(name) implies declared.contains_key(
                name,
            ) by {
                let k = choose|k: int| 0 <= k < listed.len() && listed[k] == ValueView::String(name);
                assert(listed[k] is String);
            }
        }
        true
    }
}

/// A text that a model may consult while it answers.
#[derive(Debug, Clone, PartialEq, Eq)]
pub struct Document {
    pub id: String,
    pub text: String,
    pub additional_props: Vec<(String, String)>,
}

/// A completion to ask for.
#[derive(Debug, Clone, PartialEq, Eq)]
pub struct CompletionRequest {
    pub preamble: Option<String>,
    pub prompt: Message,
    pub chat_history: Vec<Message>,
    pub documents: Vec<Document>,
    pub tools: Vec<ToolDefinition>,
    pub temperature: Option<Number>,
    /// Raw members laid over the request that the adapter generates.
    pub additional_params: Option<Value>,
}

/// What a model answered: one or more content parts, and the provider's own
/// response as it came.
#[derive(Debug, Clone, PartialEq, Eq)]
pub struct CompletionResponse<T> {
    pub choice: OneOrMany<AssistantContent>,
    pub raw_response: T,
}

/// A model that completes conversations, whatever provider it belongs to.
///
/// A completion is an exchange in two steps. The request is first written
/// as a POST in the provider's format; what cannot be written is reported
/// then, before anything is sent. What came of the POST is then read as the
/// outcome; what the provider or the transport got wrong is reported there.
pub trait CompletionModel {
    /// The provider's own response, which is kept beside what is read from
    /// it.
    type Response;

    /// Why a request cannot be written for the provider, where it cannot.
    spec fn refusal(&self, request: CompletionRequest) -> Option<Seq<char>>;

    /// The POST for a request that can be written: where it goes, how it is
    /// authorised, and what its body holds.
    spec fn completion_post(&self, request: CompletionRequest) -> HttpRequestView;

    /// Whether `outcome` is what `reply` means, where `reply` is what came of
    /// the POST for a completion.
    spec fn completion_outcome(
        &self,
        reply: HttpReply,
        outcome: Result<CompletionResponse<Self::Response>, CompletionError>,
    ) -> bool;

    /// The POST that asks for the completion, or a conversion error that
    /// says why the request cannot be written.
    fn completion_request(&self, request: CompletionRequest) -> (prepared: Result<
        HttpRequest,
        CompletionError,
    >)
        ensures
            match prepared {
                Ok(post) => self.refusal(request) is None && post@ == self.completion_post(
                    request,
                ),
                Err(e) => e is ConversionError && self.refusal(request) == Some(e.reason()),
            },
    ;

    /// The outcome of the completion, read from what came of the POST: a
    /// transport error where no answer was had, a provider error with the
    /// body as it came where the status was not one of success, and never a
    /// conversion error. What a reply with a status of success means is the
    /// provider's to say.
    fn completion_response(&self, reply: HttpReply) -> (outcome: Result<
        CompletionResponse<Self::Response>,
        CompletionError,
    >)
        ensures
            self.completion_outcome(reply, outcome),
            match reply {
                HttpReply::Failed { reason } => outcome matches Err(e) && e is TransportError
                    && e.reason() == reason@,
                HttpReply::Received { success, body, json } => {
                    &&& !success ==> (outcome matches Err(e) && e is ProviderError && e.reason()
                        == body@)
                    &&& outcome is Err ==> outcome->Err_0 is ProviderError
                },
            },
    ;
}

/// The first failure of a list of outcomes, where one of them is a failure.
pub open spec fn first_failure(outcomes: Seq<Option<Seq<char>>>) -> Option<Seq<char>>
    decreases outcomes.len(),
{
    if outcomes.len() == 0 {
        None
    } else if outcomes[0] is Some {
        outcomes[0]
    } else {
        first_failure(outcomes.skip(1))
    }
}

/// Where no outcome before `i` is a failure, the first failure is the first
/// from `i` on.
pub proof fn lemma_first_failure_from(outcomes: Seq<Option<Seq<char>>>, i: int)
    requires
        0 <= i <= outcomes.len(),
        forall|k: int| 0 <= k < i ==> #[trigger] outcomes[k] is None,
    ensures
        first_failure(outcomes) == first_failure(outcomes.skip(i)),
        i == outcomes.len() ==> first_failure(outcomes) is None,
        i < outcomes.len() && outcomes[i] is Some ==> first_failure(outcomes) == outcomes[i],
    decreases i,
{
    if i == 0 {
        assert(outcomes.skip(0) =~= outcomes);
    } else {
        lemma_first_failure_from(outcomes, i - 1);
        let rest = outcomes.skip(i - 1);
        assert(rest[0] == outcomes[i - 1]);
        assert(rest.skip(1) =~= outcomes.skip(i));
    }
    if i < outcomes.len() {
        assert(outcomes.skip(i)[0] == outcomes[i]);
    }
}

/// There is a first failure exactly where some outcome is a failure.
pub proof fn lemma_first_failure_exists(outcomes: Seq<Option<Seq<char>>>)
    ensures
        first_failure(outcomes) is Some <==> exists|i: int|
            0 <= i < outcomes.len() && #[trigger] outcomes[i] is Some,
    decreases outcomes.len(),
{
    if outcomes.len() > 0 {
        let rest = outcomes.skip(1);
        lemma_first_failure_exists(rest);
        if first_failure(outcomes) is Some && outcomes[0] is None {
            let i = choose|i: int| 0 <= i < rest.len() && #[trigger] rest[i] is Some;
            assert(outcomes[i + 1] is Some);
        }
        if exists|i: int| 0 <= i < outcomes.len() && #[trigger] outcomes[i] is Some {
            let i = choose|i: int| 0 <= i < outcomes.len() && #[trigger] outcomes[i] is Some;
            if i > 0 {
                assert(rest[i - 1] is Some);
            }
        }
    }
}

/// Completes `request` with `model`, sending through `send`.
///
/// A request that cannot be written for the provider is reported at once,
/// and `send` is not called. Else `send` is called once, with the POST that
/// the model wrote, and the outcome is what the model reads from the reply
/// that `send` gave.
pub fn complete<M: CompletionModel, F: FnOnce(HttpRequest) -> HttpReply>(
    model: &M,
    request: CompletionRequest,
    send: F,
) -> (outcome: Result<CompletionResponse<M::Response>, CompletionError>)
    requires
        forall|post: HttpRequest| call_requires(send, (post,)),
    ensures
        model.refusal(request) is Some ==> (outcome matches Err(e) && e is ConversionError
            && model.refusal(request) == Some(e.reason())),
        model.refusal(request) is None ==> exists|post: HttpRequest, reply: HttpReply|
            {
                &&& post@ == model.completion_post(request)
                &&& #[trigger] call_ensures(send, (post,), reply)
                &&& model.completion_outcome(reply, outcome)
                &&& match reply {
                    HttpReply::Failed { reason } => outcome matches Err(e) && e is TransportError
                        && e.reason() == reason@,
                    HttpReply::Received { success, body, json } => {
                        &&& !success ==> (outcome matches Err(e) && e is ProviderError
                            && e.reason() == body@)
                        &&& outcome is Err ==> outcome->Err_0 is ProviderError
                    },
                }
            },
{
    match model.completion_request(request) {
        Ok(post) => {
            let reply = send(post);
            let outcome = model.completion_response(reply);
            assert(call_ensures(send, (post,), reply));
            outcome
        },
        Err(e) => Err(e),
    }
}

/// Why a completion failed.
#[derive(Debug, Clone, PartialEq, Eq)]
pub enum CompletionError {
    /// The request cannot be written in the provider's format.
    ConversionError(String),
    /// The provider refused or reported an error; the text is the provider's.
    ProviderError(String),
    /// The exchange with the provider did not take place.
    TransportError(String),
}

impl CompletionError {
    /// The text that the error carries.
    pub open spec fn reason(self) -> Seq<char> {
        match self {
            CompletionError::ConversionError(text) => text@,
            CompletionError::ProviderError(text) => text@,
            CompletionError::TransportError(text) => text@,
        }
    }
}

/// `base` with each of `props` bound in turn, as a string, under its name.
pub open spec fn with_props(base: Map<Seq<char>, ValueView>, props: Seq<(String, String)>) -> Map<
    Seq<char>,
    ValueView,
>
    decreases props.len(),
{
    if props.len() == 0 {
        base
    } else {
        with_props(base, props.drop_last()).insert(
            props.last().0@,
            ValueView::String(props.last().1@),
        )
    }
}

/// A document as JSON: an object with its `id`, its `text`, and beside them
/// its additional properties.
pub open spec fn document_json(d: Document) -> ValueView {
    ValueView::Object(
        with_props(
            Map::empty().insert("id"@, ValueView::String(d.id@)).insert(
                "text"@,
                ValueView::String(d.text@),
            ),
            d.additional_props@,
        ),
    )
}

/// A list of documents as a JSON array.
pub open spec fn documents_json(documents: Seq<Document>) -> ValueView {
    ValueView::Array(Seq::new(documents.len(), |i: int| document_json(documents[i])))
}

impl Document {
    /// The document as JSON.
    pub fn to_json(&self) -> (json: Value)
        ensures
            json@ == document_json(*self),
    {
        let mut members: Vec<Member> = Vec::new();
        push_member(&mut members, "id", Value::String(self.id.clone()));
        push_member(&mut members, "text", Value::String(self.text.clone()));
        let ghost base = members_view(members@);
        let props = &self.additional_props;
        let mut i: usize = 0;
        while i < props.len()
            invariant
                i <= props.len(),
                members_view(members@) == with_props(base, props@.take(i as int)),
            decreases props.len() - i,
        {
            proof {
                assert(props@.take(i + 1).drop_last() =~= props@.take(i as int));
            }
            push_member(&mut members, props[i].0.as_str(), Value::String(props[i].1.clone()));
            i = i + 1;
        }
        assert(props@.take(props.len() as int) =~= props@);
        Value::Object(members)
    }
}

/// The documents as a JSON array.
pub fn documents_to_json(documents: &Vec<Document>) -> (json: Value)
    ensures
        json@ == documents_json(documents@),
{
    let mut out: Vec<Value> = Vec::new();
    let mut i: usize = 0;
    while i < documents.len()
        invariant
            i <= documents.len(),
            out.len() == i,
            forall|k: int| 0 <= k < i ==> (#[trigger] out[k])@ == document_json(documents[k]),
        decreases documents.len() - i,
    {
        out.push(documents[i].to_json());
        i = i + 1;
    }
    proof {
        lemma_items_view(out@, documents_json(documents@)->Array_0);
    }
    Value::Array(out)
}

} // verus!

//! The provider-independent embedding model.

use vstd::prelude::*;
use crate::json::Number;
use crate::text::{decimal, to_decimal};
use crate::transport::{HttpReply, HttpRequest, HttpRequestView};
use crate::views::views;

verus! {

/// A document together with the vector that a model computed for it.
#[derive(Debug, Clone, PartialEq, Eq)]
pub struct Embedding {
    pub document: String,
    pub vec: Vec<Number>,
}

/// A model that computes embeddings, whatever provider it belongs to.
///
/// Embedding is an exchange in two steps, as a completion is: the documents
/// are written as one POST, and what came of it is read as the embeddings.
pub trait EmbeddingModel {
    /// The most documents that the provider takes in one request.
    spec fn batch_limit(&self) -> nat;

    /// The POST that asks for the embeddings of the documents: where it goes,
    /// how it is authorised, and what its body holds.
    spec fn embed_post(&self, documents: Seq<Seq<char>>) -> HttpRequestView;

    /// Whether `outcome` is what `reply` means, where `reply` is what came of
    /// the POST for the documents.
    spec fn embed_outcome(
        &self,
        documents: Seq<Seq<char>>,
        reply: HttpReply,
        outcome: Result<Vec<Embedding>, EmbeddingError>,
    ) -> bool;

    /// The most documents that the provider takes in one request. A caller
    /// with more sends them in several batches; the model does not split.
    fn max_documents(&self) -> (n: usize)
        ensures
            n == self.batch_limit(),
    ;

    /// The length of the vectors that the model is taken to compute; 0
    /// where it is not known.
    fn ndims(&self) -> usize;

    /// The POST that asks for the embeddings of `documents`, all of them in
    /// one request. The documents are no more than the provider takes.
    fn embed_texts_request(&self, documents: &Vec<String>) -> (post: HttpRequest)
        requires
            documents@.len() <= self.batch_limit(),
        ensures
            post@ == self.embed_post(views(documents@)),
    ;

    /// The embeddings of `documents`, the documents that were sent, read
    /// from what came of the POST: one for each document, in the order of
    /// the documents, or an error. A transport error where no answer was
    /// had, a provider error with the body as it came where the status was
    /// not one of success. What else a reply means is the provider's to say.
    fn embed_texts_response(&self, documents: Vec<String>, reply: HttpReply) -> (outcome: Result<
        Vec<Embedding>,
        EmbeddingError,
    >)
        ensures
            self.embed_outcome(views(documents@), reply, outcome),
            outcome is Ok ==> {
                &&& outcome->Ok_0.len() == documents.len()
                &&& forall|i: int|
                    0 <= i < documents.len() ==> (#[trigger] outcome->Ok_0[i]).document@
                        == documents[i]@
            },
            match reply {
                HttpReply::Failed { reason } => outcome matches Err(e) && e is TransportError
                    && e.reason() == reason@,
                HttpReply::Received { success, body, json } => {
                    &&& !success ==> (outcome matches Err(e) && e is ProviderError && e.reason()
                        == body@)
                    &&& outcome is Err ==> !(outcome->Err_0 is TransportError)
                },
            },
    ;
}

/// What is reported of more documents than a provider takes in one request.
pub open spec fn batch_text(limit: nat, got: nat) -> Seq<char> {
    "Expected at most "@ + decimal(limit) + " documents, got "@ + decimal(got)
}

/// Whether `documents` are no more than `model` takes in one request; where
/// they are more, the error says how many were expected at most and how many
/// there are.
pub fn check_batch<M: EmbeddingModel>(model: &M, documents: &Vec<String>) -> (checked: Result<
    (),
    EmbeddingError,
>)
    ensures
        match checked {
            Ok(_) => documents@.len() <= model.batch_limit(),
            Err(e) => {
                &&& documents@.len() > model.batch_limit()
                &&& e is DocumentError
                &&& e.reason() == batch_text(model.batch_limit(), documents@.len())
            },
        },
{
    let limit = model.max_documents();
    if documents.len() <= limit {
        Ok(())
    } else {
        let mut text = "Expected at most ".to_owned();
        text.append(to_decimal(limit as u64).as_str());
        text.append(" documents, got ");
        text.append(to_decimal(documents.len() as u64).as_str());
        Err(EmbeddingError::DocumentError(text))
    }
}

/// Embeds `documents` with `model`, sending through `send`.
///
/// More documents than the provider takes in one request are reported at
/// once, and `send` is not called. Else `send` is called once, with the POST
/// that the model wrote for all the documents, and the outcome is what the
/// model reads from the reply that `send` gave: one embedding for each
/// document, in the order of the documents, or an error.
pub fn embed<M: EmbeddingModel, F: FnOnce(HttpRequest) -> HttpReply>(
    model: &M,
    documents: Vec<String>,
    send: F,
) -> (outcome: Result<Vec<Embedding>, EmbeddingError>)
    requires
        forall|post: HttpRequest| call_requires(send, (post,)),
    ensures
        documents@.len() > model.batch_limit() ==> (outcome matches Err(e) && e is DocumentError
            && e.reason() == batch_text(model.batch_limit(), documents@.len())),
        documents@.len() <= model.batch_limit() ==> exists|post: HttpRequest, reply: HttpReply|
            {
                &&& post@ == model.embed_post(views(documents@))
                &&& #[trigger] call_ensures(send, (post,), reply)
                &&& model.embed_outcome(views(documents@), reply, outcome)
            },
        outcome is Ok ==> {
            &&& outcome->Ok_0.len() == documents.len()
            &&& forall|i: int|
                0 <= i < documents.len() ==> (#[trigger] outcome->Ok_0[i]).document@
                    == documents[i]@
        },
{
    match check_batch(model, &documents) {
        Ok(_) => {
            let post = model.embed_texts_request(&documents);
            let reply = send(post);
            let outcome = model.embed_texts_response(documents, reply);
            assert(call_ensures(send, (post,), reply));
            outcome
        },
        Err(e) => Err(e),
    }
}

/// Why an embedding failed.
#[derive(Debug, Clone, PartialEq, Eq)]
pub enum EmbeddingError {
    /// The provider's answer does not fit the documents that were sent.
    DocumentError(String),
    /// The provider refused or reported an error; the text is the provider's.
    ProviderError(String),
    /// The exchange with the provider did not take place.
    TransportError(String),
}

impl EmbeddingError {
    /// The text that the error carries.
    pub open spec fn reason(self) -> Seq<char> {
        match self {
            EmbeddingError::DocumentError(text) => text@,
            EmbeddingError::ProviderError(text) => text@,
            EmbeddingError::TransportError(text) => text@,
        }
    }
}

} // verus!

//! Cohere's embedding service: the models it offers, what is sent to it,
//! and how its answer is paired with the documents that were sent.

use vstd::prelude::*;
use crate::decode::{default_count_at, numbers_of, Decode};
use crate::embeddings;
use crate::embeddings::{Embedding, EmbeddingError};
use crate::json::{lemma_items_view, push_member, Member, Number, Value, ValueView};
use crate::providers::cohere::client::{endpoint, Client};
use crate::providers::cohere::decode::{decode_embeddings, refusal_text, ApiResponse};
use crate::text::{decimal, str_eq, to_decimal};
use crate::transport::{HttpReply, HttpRequest, HttpRequestView};
use crate::views::views;

verus! {

/// `embed-english-v3.0` embedding model
pub const EMBED_ENGLISH_V3: &'static str = "embed-english-v3.0";

/// `embed-english-light-v3.0` embedding model
pub const EMBED_ENGLISH_LIGHT_V3: &'static str = "embed-english-light-v3.0";

/// `embed-multilingual-v3.0` embedding model
pub const EMBED_MULTILINGUAL_V3: &'static str = "embed-multilingual-v3.0";

/// `embed-multilingual-light-v3.0` embedding model
pub const EMBED_MULTILINGUAL_LIGHT_V3: &'static str = "embed-multilingual-light-v3.0";

/// `embed-english-v2.0` embedding model
pub const EMBED_ENGLISH_V2: &'static str = "embed-english-v2.0";

/// `embed-english-light-v2.0` embedding model
pub const EMBED_ENGLISH_LIGHT_V2: &'static str = "embed-english-light-v2.0";

/// `embed-multilingual-v2.0` embedding model
pub const EMBED_MULTILINGUAL_V2: &'static str = "embed-multilingual-v2.0";

/// The path of the embedding service below the base address.
pub const EMBED_PATH: &'static str = "v1/embed";

/// What Cohere answers to a request for embeddings.
#[derive(Debug, Clone, PartialEq, Eq)]
pub struct EmbeddingResponse {
    pub response_type: Option<String>,
    pub id: String,
    pub embeddings: Vec<Vec<Number>>,
    pub texts: Vec<String>,
    pub meta: Option<Meta>,
}

/// What Cohere says about an answer: the version that gave it and what it
/// is billed as.
#[derive(Debug, Clone, PartialEq, Eq)]
pub struct Meta {
    pub api_version: ApiVersion,
    pub billed_units: BilledUnits,
    pub warnings: Vec<String>,
}

/// The version of the service that gave an answer.
#[derive(Debug, Clone, PartialEq, Eq)]
pub struct ApiVersion {
    pub version: String,
    pub is_deprecated: Option<bool>,
    pub is_experimental: Option<bool>,
}

/// What an answer is billed as.
#[derive(Debug, Clone, Copy, PartialEq, Eq)]
pub struct BilledUnits {
    pub input_tokens: u32,
    pub output_tokens: u32,
    pub search_units: u32,
    pub classifications: u32,
}

impl BilledUnits {
    /// The four counts, one on each line, each after its name.
    pub open spec fn text(self) -> Seq<char> {
        "Input tokens: "@ + decimal(self.input_tokens as nat) + "\nOutput tokens: "@ + decimal(
            self.output_tokens as nat,
        ) + "\nSearch units: "@ + decimal(self.search_units as nat) + "\nClassifications: "@
            + decimal(self.classifications as nat)
    }

    /// The counts as text, for a record of what a call cost.
    pub fn to_text(&self) -> (text: String)
        ensures
            text@ == self.text(),
    {
        let mut text = "Input tokens: ".to_owned();
        text.append(to_decimal(self.input_tokens as u64).as_str());
        text.append("\nOutput tokens: ");
        text.append(to_decimal(self.output_tokens as u64).as_str());
        text.append("\nSearch units: ");
        text.append(to_decimal(self.search_units as u64).as_str());
        text.append("\nClassifications: ");
        text.append(to_decimal(self.classifications as u64).as_str());
        text
    }
}

/// The record of what an embedding call is billed as; `n/a` where Cohere
/// did not say.
pub open spec fn billing_text(meta: Option<Meta>) -> Seq<char> {
    billing_text_of(
        match meta {
            Some(m) => Some(m.billed_units),
            None => None,
        },
    )
}

impl EmbeddingResponse {
    /// The record of what the call is billed as, for the caller to log.
    pub fn billing_record(&self) -> (text: String)
        ensures
            text@ == billing_text(self.meta),
    {
        match &self.meta {
            Some(m) => {
                let mut text = "Cohere embeddings billed units: ".to_owned();
                text.append(m.billed_units.to_text().as_str());
                text
            },
            None => "Cohere embeddings billed units: n/a".to_owned(),
        }
    }
}

/// The length of the vectors that a model of Cohere computes, as far as it
/// is known; 0 stands for a model that is not known.
pub open spec fn known_ndims(model: Seq<char>) -> nat {
    if model == EMBED_ENGLISH_V3@ || model == EMBED_MULTILINGUAL_V3@ || model
        == EMBED_ENGLISH_LIGHT_V2@ {
        1024
    } else if model == EMBED_ENGLISH_LIGHT_V3@ || model == EMBED_MULTILINGUAL_LIGHT_V3@ {
        384
    } else if model == EMBED_ENGLISH_V2@ {
        4096
    } else if model == EMBED_MULTILINGUAL_V2@ {
        768
    } else {
        0
    }
}

/// What is sent for embeddings: the model, the texts in order, and the kind
/// of input that they are.
pub open spec fn embed_body(model: Seq<char>, texts: Seq<Seq<char>>, input_type: Seq<char>) -> ValueView {
    ValueView::Object(
        Map::empty().insert("model"@, ValueView::String(model)).insert(
            "texts"@,
            ValueView::Array(Seq::new(texts.len(), |i: int| ValueView::String(texts[i]))),
        ).insert("input_type"@, ValueView::String(input_type)),
    )
}

/// What is reported where Cohere gave another number of vectors than it was
/// sent documents.
pub open spec fn mismatch_text(expected: nat, got: nat) -> Seq<char> {
    "Expected "@ + decimal(expected) + " embeddings, got "@ + decimal(got)
}

/// An embedding model of Cohere, reached through a client.
#[derive(Debug, Clone, PartialEq, Eq)]
pub struct EmbeddingModel {
    pub client: Client,
    pub model: String,
    pub input_type: String,
    pub ndims: usize,
}

impl EmbeddingModel {
    /// The most documents that Cohere takes in one request.
    pub const MAX_DOCUMENTS: usize = 96;

    /// The model `model` behind `client`, taken to compute vectors of length
    /// `ndims`, for input of the kind `input_type`.
    pub fn new(client: Client, model: &str, input_type: &str, ndims: usize) -> (m: Self)
        ensures
            m.client == client,
            m.model@ == model@,
            m.input_type@ == input_type@,
            m.ndims == ndims,
    {
        EmbeddingModel { client, model: model.to_owned(), input_type: input_type.to_owned(), ndims }
    }

    /// Pairs the documents that were sent with the vectors that came back,
    /// index by index.
    ///
    /// Another number of vectors than of documents is an error; nothing is
    /// cut short or filled up.
    pub fn pair(documents: Vec<String>, response: EmbeddingResponse) -> (paired: Result<
        Vec<Embedding>,
        EmbeddingError,
    >)
        ensures
            match paired {
                Ok(embeddings) => {
                    &&& response.embeddings.len() == documents.len()
                    &&& embeddings.len() == documents.len()
                    &&& forall|i: int|
                        0 <= i < documents.len() ==> {
                            &&& (#[trigger] embeddings[i]).document@ == documents[i]@
                            &&& embeddings[i].vec@ == response.embeddings[i]@
                        }
                },
                Err(e) => {
                    &&& response.embeddings.len() != documents.len()
                    &&& e is DocumentError
                    &&& e.reason() == mismatch_text(
                        documents.len() as nat,
                        response.embeddings.len() as nat,
                    )
                },
            },
    {
        if response.embeddings.len() != documents.len() {
            let mut text = "Expected ".to_owned();
            text.append(to_decimal(documents.len() as u64).as_str());
            text.append(" embeddings, got ");
            text.append(to_decimal(response.embeddings.len() as u64).as_str());
            return Err(EmbeddingError::DocumentError(text));
        }
        let mut out: Vec<Embedding> = Vec::new();
        let mut i: usize = 0;
        while i < documents.len()
            invariant
                i <= documents.len(),
                response.embeddings.len() == documents.len(),
                out.len() == i,
                forall|k: int|
                    0 <= k < i ==> {
                        &&& (#[trigger] out[k]).document@ == documents[k]@
                        &&& out[k].vec@ == response.embeddings[k]@
                    },
            decreases documents.len() - i,
        {
            let vec = response.embeddings[i].clone();
            out.push(Embedding { document: documents[i].clone(), vec });
            i = i + 1;
        }
        Ok(out)
    }
}

/// Whether a reply carries embeddings: its status is one of success and its
/// body is JSON of the shape of an embedding response.
pub open spec fn carries_embeddings(success: bool, json: Option<Value>) -> bool {
    success && json is Some && EmbeddingResponse::shape(json->Some_0@)
}

/// The vectors of an embedding response, as they stand in its JSON.
pub open spec fn sent_vectors(json: ValueView) -> Seq<ValueView> {
    json.member("embeddings"@)->Some_0->Array_0
}

/// The counts that the JSON of billed units holds, each 0 where it is
/// missing.
pub open spec fn units_in(units: ValueView) -> BilledUnits {
    BilledUnits {
        input_tokens: default_count_at(units, "input_tokens"@)->Some_0,
        output_tokens: default_count_at(units, "output_tokens"@)->Some_0,
        search_units: default_count_at(units, "search_units"@)->Some_0,
        classifications: default_count_at(units, "classifications"@)->Some_0,
    }
}

/// What an embedding response says, in its JSON, that the call is billed as.
pub open spec fn billed_units_of(json: ValueView) -> Option<BilledUnits> {
    match json.member("meta"@) {
        None => None,
        Some(ValueView::Null) => None,
        Some(meta) => Some(units_in(meta.member("billed_units"@)->Some_0)),
    }
}

/// The record of what an embedding call is billed as.
pub open spec fn billing_text_of(units: Option<BilledUnits>) -> Seq<char> {
    match units {
        Some(u) => "Cohere embeddings billed units: "@ + u.text(),
        None => "Cohere embeddings billed units: n/a"@,
    }
}

impl EmbeddingModel {
    /// What there is to record of what the call cost: something for every
    /// reply that carries embeddings, nothing for any other.
    pub fn embed_texts_record(reply: &HttpReply) -> (record: Option<String>)
        ensures
            match *reply {
                HttpReply::Failed { .. } => record is None,
                HttpReply::Received { success, body, json } => if carries_embeddings(success, json) {
                    record matches Some(text) && text@ == billing_text_of(
                        billed_units_of(json->Some_0@),
                    )
                } else {
                    record is None
                },
            },
    {
        match reply {
            HttpReply::Failed { .. } => None,
            HttpReply::Received { success, body, json } => {
                if !*success {
                    return None;
                }
                match json {
                    Some(j) => match decode_embeddings(j) {
                        Some(ApiResponse::Success(answer)) => Some(answer.billing_record()),
                        _ => None,
                    },
                    None => None,
                }
            },
        }
    }

}

/// Whether `outcome` is what a reply of Cohere means for the documents that
/// were sent.
///
/// A POST that had no answer is a transport error. Of a reply that carries
/// embeddings, the vectors are paired with the documents, in order, where
/// there are as many of the one as of the other, and a document error says
/// so where there are not. Any other reply is a provider error: with Cohere's
/// message where the reply has one, else with the body as it came.
pub open spec fn embeddings_read(
    documents: Seq<Seq<char>>,
    reply: HttpReply,
    outcome: Result<Vec<Embedding>, EmbeddingError>,
) -> bool {
    match reply {
        HttpReply::Failed { reason } => outcome matches Err(e) && e is TransportError && e.reason()
            == reason@,
        HttpReply::Received { success, body, json } => if carries_embeddings(success, json) {
            let vectors = sent_vectors(json->Some_0@);
            if vectors.len() == documents.len() {
                &&& outcome matches Ok(embeddings)
                &&& embeddings.len() == documents.len()
                &&& forall|i: int|
                    0 <= i < documents.len() ==> {
                        &&& (#[trigger] embeddings[i]).document@ == documents[i]
                        &&& numbers_of(vectors[i]) == Some(embeddings[i].vec@)
                    }
            } else {
                &&& outcome matches Err(e)
                &&& e is DocumentError
                &&& e.reason() == mismatch_text(documents.len(), vectors.len())
            }
        } else {
            &&& outcome matches Err(e)
            &&& e is ProviderError
            &&& e.reason() == refusal_text(success, body@, json)
        },
    }
}

impl embeddings::EmbeddingModel for EmbeddingModel {
    open spec fn batch_limit(&self) -> nat {
        EmbeddingModel::MAX_DOCUMENTS as nat
    }

    open spec fn embed_post(&self, documents: Seq<Seq<char>>) -> HttpRequestView {
        HttpRequestView {
            url: endpoint(self.client.base_url(), EMBED_PATH@),
            authorization: "Bearer "@ + self.client.api_key(),
            body: embed_body(self.model@, documents, self.input_type@),
        }
    }

    open spec fn embed_outcome(
        &self,
        documents: Seq<Seq<char>>,
        reply: HttpReply,
        outcome: Result<Vec<Embedding>, EmbeddingError>,
    ) -> bool {
        embeddings_read(documents, reply, outcome)
    }

    fn max_documents(&self) -> (n: usize) {
        EmbeddingModel::MAX_DOCUMENTS
    }

    fn ndims(&self) -> (n: usize)
        ensures
            n == self.ndims,
    {
        self.ndims
    }

    /// The request that asks for the embeddings of `documents`, all of them
    /// in one POST.
    fn embed_texts_request(&self, documents: &Vec<String>) -> (post: HttpRequest) {
        let mut texts: Vec<Value> = Vec::new();
        let mut i: usize = 0;
        while i < documents.len()
            invariant
                i <= documents.len(),
                texts.len() == i,
                forall|k: int| 0 <= k < i ==> (#[trigger] texts[k])@ == ValueView::String(documents[k]@),
            decreases documents.len() - i,
        {
            texts.push(Value::String(documents[i].clone()));
            i = i + 1;
        }
        proof {
            lemma_items_view(
                texts@,
                Seq::new(views(documents@).len(), |i: int| ValueView::String(views(documents@)[i])),
            );
        }
        let mut members: Vec<Member> = Vec::new();
        push_member(&mut members, "model", Value::String(self.model.clone()));
        push_member(&mut members, "texts", Value::Array(texts));
        push_member(&mut members, "input_type", Value::String(self.input_type.clone()));
        self.client.post(EMBED_PATH).json(Value::Object(members))
    }

    /// Reads what came of the POST as the embeddings of `documents`, the
    /// documents that were sent.
    ///
    /// A POST that had no answer is a transport error. An answer with
    /// another status than success is a provider error with the body as it
    /// came. Of an answer with a status of success, the body is read as
    /// embeddings where it has the shape of them, and the vectors are paired
    /// with the documents, in order: another number of vectors than of
    /// documents is a document error. Else the body is read as an error of
    /// Cohere's, whose message is reported; else it is reported as it came.
    fn embed_texts_response(&self, documents: Vec<String>, reply: HttpReply) -> (outcome: Result<
        Vec<Embedding>,
        EmbeddingError,
    >)
    {
        match reply {
            HttpReply::Failed { reason } => Err(EmbeddingError::TransportError(reason)),
            HttpReply::Received { success, body, json } => {
                if !success {
                    return Err(EmbeddingError::ProviderError(body));
                }
                match &json {
                    Some(j) => match decode_embeddings(j) {
                        Some(ApiResponse::Success(answer)) => {
                            let ghost vectors = sent_vectors(j@);
                            let ghost read = answer.embeddings@;
                            let outcome = EmbeddingModel::pair(documents, answer);
                            proof {
                                assert(read.len() == vectors.len());
                                if outcome is Ok {
                                    let embeddings = outcome->Ok_0;
                                    assert forall|i: int| 0 <= i < documents.len() implies numbers_of(
                                        vectors[i],
                                    ) == Some((#[trigger] embeddings[i]).vec@) by {
                                        assert(numbers_of(vectors[i]) == Some(read[i]@));
                                    }
                                }
                            }
                            outcome
                        },
                        Some(ApiResponse::Failure(error)) => Err(
                            EmbeddingError::ProviderError(error.message),
                        ),
                        None => Err(EmbeddingError::ProviderError(body)),
                    },
                    None => Err(EmbeddingError::ProviderError(body)),
                }
            },
        }
    }
}

impl Client {
    /// The embedding model `model`, with the vector length that is known
    /// for it; a model that is not known gets length 0, and is better made
    /// with [`Client::embedding_model_with_ndims`].
    pub fn embedding_model(&self, model: &str, input_type: &str) -> (m: EmbeddingModel)
        ensures
            m.client == *self,
            m.model@ == model@,
            m.input_type@ == input_type@,
            m.ndims == known_ndims(model@),
    {
        let ndims: usize = if str_eq(model, EMBED_ENGLISH_V3) || str_eq(model, EMBED_MULTILINGUAL_V3)
            || str_eq(model, EMBED_ENGLISH_LIGHT_V2) {
            1024
        } else if str_eq(model, EMBED_ENGLISH_LIGHT_V3) || str_eq(model, EMBED_MULTILINGUAL_LIGHT_V3) {
            384
        } else if str_eq(model, EMBED_ENGLISH_V2) {
            4096
        } else if str_eq(model, EMBED_MULTILINGUAL_V2) {
            768
        } else {
            0
        };
        EmbeddingModel::new(self.clone(), model, input_type, ndims)
    }

    /// The embedding model `model`, taken to compute vectors of length
    /// `ndims`.
    pub fn embedding_model_with_ndims(&self, model: &str, input_type: &str, ndims: usize) -> (m:
        EmbeddingModel)
        ensures
            m.client == *self,
            m.model@ == model@,
            m.input_type@ == input_type@,
            m.ndims == ndims,
    {
        EmbeddingModel::new(self.clone(), model, input_type, ndims)
    }
}

} // verus!

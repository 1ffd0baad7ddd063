//! What an exchange with a provider consists of: a POST, and what came of
//! it.
//!
//! The adapters perform no exchange themselves. They say what to post and
//! where, and what a reply means; the sending is left to the caller, who
//! hands back what came of it.

use vstd::prelude::*;
use crate::json::{Value, ValueView};

verus! {

/// A POST to make: the address, the value of the `Authorization` header, and
/// the JSON body.
#[derive(Debug, Clone, PartialEq, Eq)]
pub struct HttpRequest {
    pub url: String,
    pub authorization: String,
    pub body: Value,
}

/// The mathematical content of an [`HttpRequest`].
pub struct HttpRequestView {
    pub url: Seq<char>,
    pub authorization: Seq<char>,
    pub body: ValueView,
}

impl View for HttpRequest {
    type V = HttpRequestView;

    open spec fn view(&self) -> HttpRequestView {
        HttpRequestView { url: self.url@, authorization: self.authorization@, body: self.body@ }
    }
}

/// What came of a POST.
#[derive(Debug, Clone, PartialEq, Eq)]
pub enum HttpReply {
    /// No answer was had; `reason` says why.
    Failed { reason: String },
    /// An answer came: whether its status was one of success, its body as
    /// text, and the same body as JSON where it is JSON.
    Received { success: bool, body: String, json: Option<Value> },
}

impl HttpRequest {
    /// The same POST with `body` as its body.
    pub fn json(self, body: Value) -> (request: HttpRequest)
        ensures
            request.url == self.url,
            request.authorization == self.authorization,
            request.body == body,
    {
        HttpRequest { url: self.url, authorization: self.authorization, body }
    }
}

} // verus!

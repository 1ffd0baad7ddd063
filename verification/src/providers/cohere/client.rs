//! The client: where Cohere is reached and with what credential.

use vstd::prelude::*;
use crate::json::{Value, ValueView};
use crate::text::{trim_end, trim_end_matches, trim_start, trim_start_matches};
use crate::transport::HttpRequest;

verus! {

/// Where Cohere's services are reached by default.
pub const COHERE_API_BASE_URL: &'static str = "https://api.cohere.ai";

/// The static configuration that every model of one client shares: the base
/// address and the credential.
#[derive(Debug, PartialEq, Eq)]
pub struct Client {
    base_url: String,
    api_key: String,
}

/// Whether a character can stand in the value of an HTTP header: a tab, or
/// anything from the space on but the delete character. (A header value is
/// made of bytes, of which the control codes are refused; a character
/// beyond ASCII is written in bytes that are none of them.)
pub open spec fn header_char(c: char) -> bool {
    c == '\t' || (c as u32 >= 32 && c as u32 != 127)
}

/// Whether a credential can be attached to requests, as the value of a
/// header: whether each of its characters can stand there.
pub open spec fn attachable(api_key: Seq<char>) -> bool {
    forall|i: int| 0 <= i < api_key.len() ==> header_char(#[trigger] api_key[i])
}

/// The address of `path` below `base`: the two with exactly one slash
/// between them, whatever slashes the base ends with and the path begins
/// with. The rest of both, the scheme of the base with it, is left as it is.
pub open spec fn endpoint(base: Seq<char>, path: Seq<char>) -> Seq<char> {
    trim_end(base, '/') + "/"@ + trim_start(path, '/')
}

impl Client {
    /// Every client holds a credential that can be attached to requests.
    #[verifier::type_invariant]
    spec fn credential_attaches(self) -> bool {
        attachable(self.api_key@)
    }

    /// The base address.
    pub closed spec fn base_url(&self) -> Seq<char> {
        self.base_url@
    }

    /// The credential.
    pub closed spec fn api_key(&self) -> Seq<char> {
        self.api_key@
    }

    /// Whether `api_key` can be attached to requests. A client is made with
    /// such a credential only.
    pub fn is_attachable(api_key: &str) -> (ok: bool)
        ensures
            ok == attachable(api_key@),
    {
        let n = api_key.unicode_len();
        let mut i: usize = 0;
        while i < n
            invariant
                i <= n,
                n == api_key@.len(),
                forall|k: int| 0 <= k < i ==> header_char(#[trigger] api_key@[k]),
            decreases n - i,
        {
            let c = api_key.get_char(i);
            if !(c == '\t' || (c as u32 >= 32 && c as u32 != 127)) {
                return false;
            }
            i = i + 1;
        }
        true
    }

    /// A client for Cohere's own address.
    pub fn new(api_key: &str) -> (client: Self)
        requires
            attachable(api_key@),
        ensures
            client.base_url() == COHERE_API_BASE_URL@,
            client.api_key() == api_key@,
    {
        Self::from_url(api_key, COHERE_API_BASE_URL)
    }

    /// A client for the service at `base_url`.
    pub fn from_url(api_key: &str, base_url: &str) -> (client: Self)
        requires
            attachable(api_key@),
        ensures
            client.base_url() == base_url@,
            client.api_key() == api_key@,
    {
        Client { base_url: base_url.to_owned(), api_key: api_key.to_owned() }
    }

    /// The POST to `path` below the base address, authorised as a bearer of
    /// the credential, with nothing in its body yet.
    pub fn post(&self, path: &str) -> (request: HttpRequest)
        ensures
            request.url@ == endpoint(self.base_url(), path@),
            request.authorization@ == "Bearer "@ + self.api_key(),
            attachable(request.authorization@),
            request.body@ == ValueView::Null,
    {
        proof {
            use_type_invariant(self);
            reveal_strlit("Bearer ");
        }
        let mut url = trim_end_matches(self.base_url.as_str(), '/').to_owned();
        url.append("/");
        url.append(trim_start_matches(path, '/'));
        let mut authorization = "Bearer ".to_owned();
        authorization.append(self.api_key.as_str());
        HttpRequest { url, authorization, body: Value::Null }
    }
}

impl Clone for Client {
    /// A client with the same address and credential.
    fn clone(&self) -> (copy: Self)
        ensures
            copy == *self,
    {
        proof {
            use_type_invariant(self);
        }
        Client { base_url: self.base_url.clone(), api_key: self.api_key.clone() }
    }
}

} // verus!

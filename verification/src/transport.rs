//! What is handed to the transport and what comes back from it.
//!
//! A request is described by [`HttpRequest`]; whoever sends it reports the
//! outcome as a [`Reply`]. The functions here decide what a reply means: a
//! body to decode, or one of the failures of [`TwcError`].

use crate::client::CloudAIClient;
use crate::error::{classify, ErrorModel, TwcError};
use crate::json::{JsonModel, JsonValue};
use crate::query::{append_query, form_urlencoded, pairs_view, query_suffix, ToQuery};
use crate::ClientConfig;
use crate::wire::{opt_view, FromJson};
use vstd::prelude::*;
use vstd::string::*;

verus! {

/// The HTTP methods that the service is called with.
#[derive(Debug, Clone, Copy, PartialEq, Eq, Structural)]
pub enum Method {
    Get,
    Post,
    Delete,
}

impl Method {
    /// The name of the method.
    pub open spec fn name(&self) -> Seq<char> {
        match self {
            Method::Get => "GET"@,
            Method::Post => "POST"@,
            Method::Delete => "DELETE"@,
        }
    }

    /// The name of the method.
    pub fn as_str(&self) -> (r: &'static str)
        ensures
            r@ == self.name(),
    {
        match self {
            Method::Get => "GET",
            Method::Post => "POST",
            Method::Delete => "DELETE",
        }
    }
}

/// A request, ready to be sent.
#[derive(Debug, Clone, PartialEq)]
pub struct HttpRequest {
    /// The method.
    pub method: Method,
    /// The full address, query included.
    pub url: String,
    /// The headers, as pairs of name and value, in the order in which they are attached.
    pub headers: Vec<(String, String)>,
    /// The body, sent as JSON, where the request has one.
    pub body: Option<JsonValue>,
}

/// The mathematical value of an [`HttpRequest`].
pub struct RequestModel {
    pub method: Method,
    pub url: Seq<char>,
    pub headers: Seq<(Seq<char>, Seq<char>)>,
    pub body: Option<JsonModel>,
}

impl View for HttpRequest {
    type V = RequestModel;

    open spec fn view(&self) -> RequestModel {
        RequestModel {
            method: self.method,
            url: self.url@,
            headers: pairs_view(self.headers@),
            body: opt_view(self.body),
        }
    }
}

/// What the transport reports of one request.
#[derive(Debug, Clone, PartialEq)]
pub enum Reply {
    /// Nothing was received: the request could not be sent or the connection
    /// failed. The text says why.
    Failed(String),
    /// An answer was received.
    Received {
        /// The HTTP status code.
        status: u16,
        /// The body as text, where it could be read as such.
        body: Option<String>,
    },
}

/// The mathematical value of a [`Reply`].
pub enum ReplyModel {
    Failed(Seq<char>),
    Received { status: u16, body: Option<Seq<char>> },
}

impl View for Reply {
    type V = ReplyModel;

    open spec fn view(&self) -> ReplyModel {
        match self {
            Reply::Failed(m) => ReplyModel::Failed(m@),
            Reply::Received { status, body } => ReplyModel::Received {
                status: *status,
                body: match body {
                    Some(t) => Some(t@),
                    None => None,
                },
            },
        }
    }
}

/// Whether a status reports success: the range 200 to 299.
pub open spec fn is_success(status: u16) -> bool {
    200 <= status <= 299
}

/// The name of the header that carries the credential.
pub open spec fn authorization_header() -> Seq<char> {
    "authorization"@
}

/// The header that names this client, attached to every request.
pub open spec fn client_header() -> (Seq<char>, Seq<char>) {
    ("x-proxy-source"@, "twcai-rust"@)
}

/// The headers of a request: the bearer credential where `auth` is set, then
/// the header that names the client.
pub open spec fn request_headers(token: Seq<char>, auth: bool) -> Seq<(Seq<char>, Seq<char>)> {
    if auth {
        seq![(authorization_header(), "Bearer "@ + token), client_header()]
    } else {
        seq![client_header()]
    }
}

/// The failure for a success answer whose body could not be read.
pub open spec fn unreadable_body() -> ErrorModel {
    ErrorModel::Http("response body could not be read"@)
}

/// What a reply means for an operation that answers with JSON: the text to
/// decode on success, else the failure. A failed transport is a transport
/// failure; a status outside 200 to 299 is classified, with the body as the
/// message where it could be read.
pub open spec fn json_outcome(reply: ReplyModel) -> Result<Seq<char>, ErrorModel> {
    match reply {
        ReplyModel::Failed(m) => Err(ErrorModel::Http(m)),
        ReplyModel::Received { status, body } => if is_success(status) {
            match body {
                Some(t) => Ok(t),
                None => Err(unreadable_body()),
            }
        } else {
            Err(classify(status, body))
        },
    }
}

/// What a reply means for an operation that answers with plain text: the text
/// on success, else the failure. The body of a failure is not looked at.
pub open spec fn text_outcome(reply: ReplyModel) -> Result<Seq<char>, ErrorModel> {
    match reply {
        ReplyModel::Failed(m) => Err(ErrorModel::Http(m)),
        ReplyModel::Received { status, body } => if is_success(status) {
            match body {
                Some(t) => Ok(t),
                None => Err(unreadable_body()),
            }
        } else {
            Err(classify(status, None))
        },
    }
}

/// What a reply means for an operation that answers without a body: success
/// for a status from 200 to 299, 204 among them, else the failure. No body is
/// looked at.
pub open spec fn empty_outcome(reply: ReplyModel) -> Result<(), ErrorModel> {
    match reply {
        ReplyModel::Failed(m) => Err(ErrorModel::Http(m)),
        ReplyModel::Received { status, body } => if is_success(status) || status == 204 {
            Ok(())
        } else {
            Err(classify(status, None))
        },
    }
}

/// Whether `r` is the outcome `expected`, text for text and failure for failure.
pub open spec fn text_result_is(
    r: Result<String, TwcError>,
    expected: Result<Seq<char>, ErrorModel>,
) -> bool {
    match r {
        Ok(t) => expected == Ok::<Seq<char>, ErrorModel>(t@),
        Err(e) => expected == Err::<Seq<char>, ErrorModel>(e@),
    }
}

fn unreadable() -> (e: TwcError)
    ensures
        e@ == unreadable_body(),
{
    TwcError::Http(String::from_str("response body could not be read"))
}

/// Whether a status reports success.
pub fn status_is_success(status: u16) -> (r: bool)
    ensures
        r == is_success(status),
{
    200 <= status && status <= 299
}

/// Interprets the reply to an operation that answers with JSON: the text of
/// the body on success, to be parsed and decoded, else the failure.
pub fn json_body(reply: Reply) -> (r: Result<String, TwcError>)
    ensures
        text_result_is(r, json_outcome(reply@)),
{
    match reply {
        Reply::Failed(m) => Err(TwcError::Http(m)),
        Reply::Received { status, body } => {
            if status_is_success(status) {
                match body {
                    Some(t) => Ok(t),
                    None => Err(unreadable()),
                }
            } else {
                Err(TwcError::from_status(status, body))
            }
        },
    }
}

/// Interprets the reply to an operation that answers with plain text.
pub fn text_body(reply: Reply) -> (r: Result<String, TwcError>)
    ensures
        text_result_is(r, text_outcome(reply@)),
{
    match reply {
        Reply::Failed(m) => Err(TwcError::Http(m)),
        Reply::Received { status, body } => {
            if status_is_success(status) {
                match body {
                    Some(t) => Ok(t),
                    None => Err(unreadable()),
                }
            } else {
                Err(TwcError::from_status(status, None))
            }
        },
    }
}

/// Interprets the reply to an operation that answers without a body.
pub fn no_body(reply: Reply) -> (r: Result<(), TwcError>)
    ensures
        match r {
            Ok(_) => empty_outcome(reply@) is Ok,
            Err(e) => empty_outcome(reply@) == Err::<(), ErrorModel>(e@),
        },
{
    match reply {
        Reply::Failed(m) => Err(TwcError::Http(m)),
        Reply::Received { status, body } => {
            if status_is_success(status) || status == 204 {
                Ok(())
            } else {
                Err(TwcError::from_status(status, None))
            }
        },
    }
}

/// Decodes a parsed body as a `T`. A body that did not parse as JSON is a
/// decoding failure with the parser's message; one that parsed is decoded,
/// and fails in the same way where it does not stand for a `T`.
pub fn decode_json<T: FromJson>(parsed: Result<JsonValue, String>) -> (r: Result<T, TwcError>)
    ensures
        match parsed {
            Ok(v) => match r {
                Ok(x) => T::decodable(v@) && x.decoded_from(v@),
                Err(e) => !T::decodable(v@) && e@ is Json,
            },
            Err(m) => r matches Err(e) && e@ == ErrorModel::Json(m@),
        },
{
    match parsed {
        Ok(v) => T::from_json(&v),
        Err(m) => Err(TwcError::Json(m)),
    }
}

/// The request that a client with the configuration `config` sends to
/// `target` below its base address: the bearer credential where `auth` is
/// set, the header that names the client always.
pub open spec fn described(
    config: &ClientConfig,
    method: Method,
    target: Seq<char>,
    auth: bool,
    body: Option<JsonModel>,
) -> RequestModel {
    RequestModel {
        method,
        url: config.base_url@ + target,
        headers: request_headers(config.token@, auth),
        body,
    }
}

/// What the query parameters `query` put behind the path: nothing where
/// there is no query or where it holds no parameter, else a question mark and
/// the parameters in the `application/x-www-form-urlencoded` form.
pub open spec fn query_text<Q: ToQuery>(query: Option<Q>) -> Seq<char> {
    match query {
        Some(q) => query_suffix(q.pairs()),
        None => Seq::empty(),
    }
}

/// A query without parameters puts nothing behind the path, not even a
/// question mark; so does an absent query.
pub proof fn lemma_empty_query_appends_nothing<Q: ToQuery>(query: Option<Q>)
    requires
        query matches Some(q) ==> q.pairs().len() == 0,
    ensures
        query_text(query) == Seq::<char>::empty(),
{
}

/// A query with parameters puts a question mark and the encoded parameters
/// behind the path.
pub proof fn lemma_query_follows_question_mark<Q: ToQuery>(query: Q)
    requires
        query.pairs().len() > 0,
    ensures
        query_text(Some(query)) == "?"@ + form_urlencoded(query.pairs()),
{
}

impl CloudAIClient {
    /// Describes a request to `path` below the base address. The bearer
    /// credential is attached where `auth` is set; the header that names the
    /// client is attached always.
    pub fn request(&self, method: Method, path: &str, auth: bool, body: Option<JsonValue>) -> (r:
        HttpRequest)
        ensures
            r@ == described(self.config(), method, path@, auth, opt_view(body)),
    {
        let config = self.config();
        let mut url = config.base_url.clone();
        url.append(path);
        let mut headers: Vec<(String, String)> = Vec::new();
        if auth {
            headers.push((String::from_str("authorization"), config.auth_header()));
        }
        headers.push((String::from_str("x-proxy-source"), String::from_str("twcai-rust")));
        assert(pairs_view(headers@) =~= request_headers(config.token@, auth));
        HttpRequest { method, url, headers, body }
    }

    /// Describes a request to `path` with the query parameters of `query`
    /// behind it. An absent query, or one without parameters, leaves the path
    /// as it is, without a question mark.
    pub fn dispatch<Q: ToQuery>(
        &self,
        method: Method,
        path: &str,
        auth: bool,
        body: Option<JsonValue>,
        query: &Option<Q>,
    ) -> (r: Result<HttpRequest, TwcError>)
        ensures
            r matches Ok(req) && req@ == described(
                self.config(),
                method,
                path@ + query_text(*query),
                auth,
                opt_view(body),
            ),
    {
        match query {
            Some(q) => {
                let pairs = q.to_pairs();
                match append_query(String::from_str(path), &pairs) {
                    Ok(target) => Ok(self.request(method, target.as_str(), auth, body)),
                    Err(e) => Err(e),
                }
            },
            None => {
                assert(path@ + Seq::<char>::empty() =~= path@);
                Ok(self.request(method, path, auth, body))
            },
        }
    }
}

} // verus!

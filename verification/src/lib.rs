//! Client-side protocol core for the Timeweb Cloud AI agent API.
//!
//! The crate builds the requests of the three resource families of the service
//! (chat completions, responses, conversations with their items) and interprets
//! what the service answers. It performs no I/O itself: every operation yields an
//! [`HttpRequest`](transport::HttpRequest) for a transport to send, and the
//! transport's [`Reply`](transport::Reply) is turned into a typed value or a
//! [`TwcError`].

use vstd::prelude::*;
use vstd::string::*;

pub mod api;
mod client;
mod error;
pub mod json;
pub mod query;
pub mod text;
pub mod transport;
pub mod types;
pub mod wire;

pub use client::{
    default_base_url, default_timeout, duration_from_secs, BuilderModel, ClientBuilder,
    CloudAIClient,
};
pub use error::{
    classify, lemma_classify_deterministic, lemma_classify_kind, lemma_classify_kind_by_status,
    message_or, opt_str_view, ErrorKind, ErrorModel, TwcError,
};

verus! {

/// The connection context shared by all requests of a client. It is set once,
/// when the client is built, and only read afterwards.
#[derive(Clone, Debug)]
pub struct ClientConfig {
    /// The address that every path is appended to.
    pub base_url: String,
    /// The bearer token.
    pub token: String,
    /// The time allowed for one request in all.
    pub timeout: std::time::Duration,
}

impl ClientConfig {
    /// The value of the authorization header: the bearer scheme and the token.
    pub fn auth_header(&self) -> (r: String)
        ensures
            r@ == "Bearer "@ + self.token@,
    {
        let mut value = String::from_str("Bearer ");
        value.append(self.token.as_str());
        value
    }
}

} // verus!

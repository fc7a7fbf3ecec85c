//! The failure taxonomy of the client and the classification of HTTP statuses.

use crate::text::{decimal, decimal_string};
use vstd::prelude::*;
use vstd::string::*;

verus! {

/// Every way in which an operation of the client can fail.
#[derive(Debug, Clone, PartialEq, Eq)]
pub enum TwcError {
    /// The request could not be sent or no answer arrived.
    Http(String),
    /// A body could not be decoded into the expected type.
    Json(String),
    /// An address could not be parsed.
    Url(String),
    /// The service answered 401: the token is invalid or expired.
    Unauthorized,
    /// The service answered 404.
    NotFound(String),
    /// The service answered 403: the domain is not whitelisted or the agent is suspended.
    Forbidden,
    /// The service rejected the request (400 and every other status without a kind of its own).
    InvalidRequest(String),
    /// The service answered with a status from 500 to 599.
    ServerError {
        /// The HTTP status code.
        status: u16,
        /// The message sent by the service.
        message: String,
    },
    /// The client was configured incompletely.
    Configuration(String),
    /// The response was cancelled.
    Cancelled,
}

/// The mathematical value of a [`TwcError`]: its kind, with each message as a
/// sequence of characters.
pub enum ErrorModel {
    Http(Seq<char>),
    Json(Seq<char>),
    Url(Seq<char>),
    Unauthorized,
    NotFound(Seq<char>),
    Forbidden,
    InvalidRequest(Seq<char>),
    ServerError { status: u16, message: Seq<char> },
    Configuration(Seq<char>),
    Cancelled,
}

/// The kind of a failure, without its payload.
#[derive(Debug, Clone, Copy, PartialEq, Eq, Structural)]
pub enum ErrorKind {
    Http,
    Json,
    Url,
    Unauthorized,
    NotFound,
    Forbidden,
    InvalidRequest,
    ServerError,
    Configuration,
    Cancelled,
}

impl ErrorModel {
    /// The kind of this failure.
    pub open spec fn kind(self) -> ErrorKind {
        match self {
            ErrorModel::Http(_) => ErrorKind::Http,
            ErrorModel::Json(_) => ErrorKind::Json,
            ErrorModel::Url(_) => ErrorKind::Url,
            ErrorModel::Unauthorized => ErrorKind::Unauthorized,
            ErrorModel::NotFound(_) => ErrorKind::NotFound,
            ErrorModel::Forbidden => ErrorKind::Forbidden,
            ErrorModel::InvalidRequest(_) => ErrorKind::InvalidRequest,
            ErrorModel::ServerError { .. } => ErrorKind::ServerError,
            ErrorModel::Configuration(_) => ErrorKind::Configuration,
            ErrorModel::Cancelled => ErrorKind::Cancelled,
        }
    }
}

impl ErrorModel {
    /// The text that describes this failure to a reader.
    pub open spec fn text(self) -> Seq<char> {
        match self {
            ErrorModel::Http(m) => "HTTP request failed: "@ + m,
            ErrorModel::Json(m) => "JSON error: "@ + m,
            ErrorModel::Url(m) => "URL error: "@ + m,
            ErrorModel::Unauthorized => "Authentication failed - invalid or expired token"@,
            ErrorModel::NotFound(m) => "Resource not found: "@ + m,
            ErrorModel::Forbidden => {
                "Access forbidden - domain not whitelisted or agent suspended"@
            },
            ErrorModel::InvalidRequest(m) => "Invalid request: "@ + m,
            ErrorModel::ServerError { status, message } => "Server error: "@ + decimal(
                status as nat,
            ) + " - "@ + message,
            ErrorModel::Configuration(m) => "Client configuration error: "@ + m,
            ErrorModel::Cancelled => "Response was cancelled"@,
        }
    }
}

impl View for TwcError {
    type V = ErrorModel;

    open spec fn view(&self) -> ErrorModel {
        match self {
            TwcError::Http(m) => ErrorModel::Http(m@),
            TwcError::Json(m) => ErrorModel::Json(m@),
            TwcError::Url(m) => ErrorModel::Url(m@),
            TwcError::Unauthorized => ErrorModel::Unauthorized,
            TwcError::NotFound(m) => ErrorModel::NotFound(m@),
            TwcError::Forbidden => ErrorModel::Forbidden,
            TwcError::InvalidRequest(m) => ErrorModel::InvalidRequest(m@),
            TwcError::ServerError { status, message } => ErrorModel::ServerError {
                status: *status,
                message: message@,
            },
            TwcError::Configuration(m) => ErrorModel::Configuration(m@),
            TwcError::Cancelled => ErrorModel::Cancelled,
        }
    }
}

/// The message that stands in for an absent body: `given` where there is one,
/// else `fallback`.
pub open spec fn message_or(given: Option<Seq<char>>, fallback: Seq<char>) -> Seq<char> {
    match given {
        Some(m) => m,
        None => fallback,
    }
}

/// The failure that a non-success status stands for. The status alone decides
/// the kind, in this order: 401, 403, 404, the range 500 to 599, everything else.
pub open spec fn classify(status: u16, message: Option<Seq<char>>) -> ErrorModel {
    if status == 401 {
        ErrorModel::Unauthorized
    } else if status == 403 {
        ErrorModel::Forbidden
    } else if status == 404 {
        ErrorModel::NotFound(message_or(message, "Resource not found"@))
    } else if 500 <= status <= 599 {
        ErrorModel::ServerError {
            status,
            message: message_or(message, "Internal server error"@),
        }
    } else {
        ErrorModel::InvalidRequest(message_or(message, "Bad request"@))
    }
}

/// The view of an optional string.
pub open spec fn opt_str_view(s: Option<String>) -> Option<Seq<char>> {
    match s {
        Some(s) => Some(s@),
        None => None,
    }
}

fn text_or(given: Option<String>, fallback: &str) -> (r: String)
    ensures
        r@ == message_or(opt_str_view(given), fallback@),
{
    match given {
        Some(m) => m,
        None => String::from_str(fallback),
    }
}

fn prefixed(prefix: &str, rest: &String) -> (r: String)
    ensures
        r@ == prefix@ + rest@,
{
    let mut text = String::from_str(prefix);
    text.append(rest.as_str());
    text
}

impl TwcError {
    /// The kind of this failure.
    pub fn kind(&self) -> (k: ErrorKind)
        ensures
            k == self@.kind(),
    {
        match self {
            TwcError::Http(_) => ErrorKind::Http,
            TwcError::Json(_) => ErrorKind::Json,
            TwcError::Url(_) => ErrorKind::Url,
            TwcError::Unauthorized => ErrorKind::Unauthorized,
            TwcError::NotFound(_) => ErrorKind::NotFound,
            TwcError::Forbidden => ErrorKind::Forbidden,
            TwcError::InvalidRequest(_) => ErrorKind::InvalidRequest,
            TwcError::ServerError { .. } => ErrorKind::ServerError,
            TwcError::Configuration(_) => ErrorKind::Configuration,
            TwcError::Cancelled => ErrorKind::Cancelled,
        }
    }

    /// The text that describes this failure to a reader. It is for people:
    /// the client itself never reads it.
    pub fn message(&self) -> (r: String)
        ensures
            r@ == self@.text(),
    {
        match self {
            TwcError::Http(m) => prefixed("HTTP request failed: ", m),
            TwcError::Json(m) => prefixed("JSON error: ", m),
            TwcError::Url(m) => prefixed("URL error: ", m),
            TwcError::Unauthorized => String::from_str(
                "Authentication failed - invalid or expired token",
            ),
            TwcError::NotFound(m) => prefixed("Resource not found: ", m),
            TwcError::Forbidden => String::from_str(
                "Access forbidden - domain not whitelisted or agent suspended",
            ),
            TwcError::InvalidRequest(m) => prefixed("Invalid request: ", m),
            TwcError::ServerError { status, message } => {
                let mut text = String::from_str("Server error: ");
                text.append(decimal_string(*status as u64).as_str());
                text.append(" - ");
                text.append(message.as_str());
                text
            },
            TwcError::Configuration(m) => prefixed("Client configuration error: ", m),
            TwcError::Cancelled => String::from_str("Response was cancelled"),
        }
    }

    /// Classifies a non-success HTTP status, with the body as the message where
    /// the service sent one.
    pub fn from_status(status: u16, message: Option<String>) -> (r: TwcError)
        ensures
            r@ == classify(status, opt_str_view(message)),
    {
        if status == 401 {
            TwcError::Unauthorized
        } else if status == 403 {
            TwcError::Forbidden
        } else if status == 404 {
            TwcError::NotFound(text_or(message, "Resource not found"))
        } else if 500 <= status && status <= 599 {
            TwcError::ServerError { status, message: text_or(message, "Internal server error") }
        } else {
            TwcError::InvalidRequest(text_or(message, "Bad request"))
        }
    }
}

/// Every status is classified as exactly one kind, decided in this order:
/// 401, 403, 404, the range 500 to 599, everything else.
pub proof fn lemma_classify_kind(status: u16, message: Option<Seq<char>>)
    ensures
        classify(status, message).kind() == if status == 401 {
            ErrorKind::Unauthorized
        } else if status == 403 {
            ErrorKind::Forbidden
        } else if status == 404 {
            ErrorKind::NotFound
        } else if 500 <= status <= 599 {
            ErrorKind::ServerError
        } else {
            ErrorKind::InvalidRequest
        },
{
}

/// Classification is a function of its inputs: two failures classified from
/// the same status and the same body are the same failure, kind and message.
pub proof fn lemma_classify_deterministic(
    first: TwcError,
    second: TwcError,
    status: u16,
    message: Option<Seq<char>>,
)
    requires
        first@ == classify(status, message),
        second@ == classify(status, message),
    ensures
        first@ == second@,
        first@.kind() == second@.kind(),
        first@.text() == second@.text(),
{
}

/// The kind of a classified status depends on the status alone: whatever the
/// two bodies hold, the same status gives the same kind.
pub proof fn lemma_classify_kind_by_status(
    status: u16,
    first: Option<Seq<char>>,
    second: Option<Seq<char>>,
)
    ensures
        classify(status, first).kind() == classify(status, second).kind(),
{
}

} // verus!

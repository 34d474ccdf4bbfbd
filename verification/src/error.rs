//! Errors of the client: what went wrong, classified.

use vstd::prelude::*;
use crate::auth;

verus! {

/// The kind of an error.
pub enum ErrorKind {
    /// The credentials do not fit the request.
    Auth(auth::Error),
    /// The request could not be built (the URL did not parse).
    Builder,
    /// The request could not be sent or its answer not read.
    Request,
    /// A response body could not be decoded.
    Decode,
    /// The rate limit is reached; the API may be called again after `reset`.
    RateLimit { reset: u64 },
    /// The API answered with an error status.
    Fault { code: u16, message: String },
}

/// What an error kind holds, as plain values.
pub enum ErrorKindView {
    Auth(auth::Error),
    Builder,
    Request,
    Decode,
    RateLimit { reset: u64 },
    Fault { code: u16, message: Seq<char> },
}

impl View for ErrorKind {
    type V = ErrorKindView;

    open spec fn view(&self) -> ErrorKindView {
        match self {
            ErrorKind::Auth(e) => ErrorKindView::Auth(*e),
            ErrorKind::Builder => ErrorKindView::Builder,
            ErrorKind::Request => ErrorKindView::Request,
            ErrorKind::Decode => ErrorKindView::Decode,
            ErrorKind::RateLimit { reset } => ErrorKindView::RateLimit { reset: *reset },
            ErrorKind::Fault { code, message } => ErrorKindView::Fault { code: *code, message: message@ },
        }
    }
}

/// An error of the client.
pub struct Error {
    kind: ErrorKind,
}

impl View for Error {
    type V = ErrorKindView;

    closed spec fn view(&self) -> ErrorKindView {
        self.kind@
    }
}

impl Error {
    pub fn new(kind: ErrorKind) -> (r: Error)
        ensures
            r@ == kind@,
    {
        Error { kind }
    }

    /// The kind of the error.
    pub fn kind(&self) -> (r: &ErrorKind)
        ensures
            r@ == self@,
    {
        &self.kind
    }

    /// Takes the kind out of the error.
    pub fn into_kind(self) -> (r: ErrorKind)
        ensures
            r@ == self@,
    {
        self.kind
    }
}

/// An API key is required for the request.
pub fn apikey_required() -> (r: Error)
    ensures
        r@ == ErrorKindView::Auth(auth::Error::ApiKeyRequired),
{
    Error::new(ErrorKind::Auth(auth::Error::ApiKeyRequired))
}

/// An access token is required for the request.
pub fn token_required() -> (r: Error)
    ensures
        r@ == ErrorKindView::Auth(auth::Error::TokenRequired),
{
    Error::new(ErrorKind::Auth(auth::Error::TokenRequired))
}

/// The request could not be built.
pub fn builder() -> (r: Error)
    ensures
        r@ == ErrorKindView::Builder,
{
    Error::new(ErrorKind::Builder)
}

/// The request could not be sent.
pub fn request() -> (r: Error)
    ensures
        r@ == ErrorKindView::Request,
{
    Error::new(ErrorKind::Request)
}

/// A body could not be decoded.
pub fn decode() -> (r: Error)
    ensures
        r@ == ErrorKindView::Decode,
{
    Error::new(ErrorKind::Decode)
}

/// The rate limit is reached.
pub fn ratelimit(reset: u64) -> (r: Error)
    ensures
        r@ == (ErrorKindView::RateLimit { reset }),
{
    Error::new(ErrorKind::RateLimit { reset })
}

/// The API answered `code` with the error message `message`.
pub fn error_for_status(code: u16, message: String) -> (r: Error)
    ensures
        r@ == (ErrorKindView::Fault { code, message: message@ }),
{
    Error::new(ErrorKind::Fault { code, message })
}

} // verus!

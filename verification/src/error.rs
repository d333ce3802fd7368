//! The error taxonomy: transport failures, non-success status codes, payload
//! decoding failures, and local input-validation failures.

use vstd::prelude::*;

use crate::json::{DecodeError, DecodeErrorV};

verus! {

/// A transport-layer failure, carried as the reporter's message text.
#[derive(Clone, PartialEq, Debug)]
pub struct HttpError {
    pub message: String,
}

/// A non-success HTTP status code.
#[derive(Clone, Copy, PartialEq, Eq, Structural, Debug)]
pub struct HttpStatusError {
    pub code: u16,
}

/// Why a definitions lookup failed.
#[derive(Clone, PartialEq, Debug)]
pub enum Error {
    /// A transport-layer failure while building or issuing the request.
    Http(HttpError),
    /// The service answered with a non-success status code.
    HttpStatus(HttpStatusError),
    /// The response payload could not be decoded.
    Json(DecodeError),
    /// An input-validation failure local to this layer.
    Other(String),
}

/// Ghost model of an `Error`.
pub enum ErrorV {
    Http(Seq<char>),
    HttpStatus(u16),
    Json(DecodeErrorV),
    Other(Seq<char>),
}

impl View for Error {
    type V = ErrorV;

    open spec fn view(&self) -> ErrorV {
        match self {
            Error::Http(e) => ErrorV::Http(e.message@),
            Error::HttpStatus(e) => ErrorV::HttpStatus(e.code),
            Error::Json(e) => ErrorV::Json(e@),
            Error::Other(s) => ErrorV::Other(s@),
        }
    }
}

/// Whether a status code counts as success (the 2xx range, as
/// `http::StatusCode::is_success` defines it).
pub open spec fn status_is_success(code: u16) -> bool {
    200 <= code < 300
}

impl Error {
    /// The error for a non-success status code.
    pub fn from_status(code: u16) -> (r: Error)
        ensures
            r@ == ErrorV::HttpStatus(code),
    {
        Error::HttpStatus(HttpStatusError { code })
    }

    /// The error for a transport failure, from its message text.
    pub fn from_transport_message(message: String) -> (r: Error)
        ensures
            r@ == ErrorV::Http(message@),
    {
        Error::Http(HttpError { message })
    }
}

} // verus!

//! Errors of the HTTP façade, with their status codes.
use vstd::prelude::*;

use crate::api::models::ErrorResponse;
use crate::library::LibraryError;

verus! {

/// A failed request: an HTTP status code, a short machine-readable code and a message.
#[derive(Debug)]
pub struct ApiError {
    pub status: u16,
    pub code: String,
    pub message: String,
}

impl ApiError {
    /// A 400 error.
    pub fn bad_request(message: String) -> (r: Self)
        ensures
            r.status == 400,
            r.code@ == "bad_request"@,
            r.message == message,
    {
        ApiError { status: 400, code: String::from_str("bad_request"), message }
    }

    /// A 404 error.
    pub fn not_found(message: String) -> (r: Self)
        ensures
            r.status == 404,
            r.code@ == "not_found"@,
            r.message == message,
    {
        ApiError { status: 404, code: String::from_str("not_found"), message }
    }

    /// A 500 error.
    pub fn internal(message: String) -> (r: Self)
        ensures
            r.status == 500,
            r.code@ == "internal_error"@,
            r.message == message,
    {
        ApiError { status: 500, code: String::from_str("internal_error"), message }
    }

    /// The error a refusal of the graph service becomes: an unknown graph is 404,
    /// anything else the caller sent wrong is 400.
    pub fn from_library(err: LibraryError) -> (r: Self)
        ensures
            err matches LibraryError::NotFound(m) ==> (r.status == 404 && r.code@
                == "not_found"@ && r.message == m),
            err matches LibraryError::InvalidInput(m) ==> (r.status == 400 && r.code@
                == "bad_request"@ && r.message == m),
    {
        match err {
            LibraryError::NotFound(message) => ApiError::not_found(message),
            LibraryError::InvalidInput(message) => ApiError::bad_request(message),
        }
    }

    /// The status code and the body sent back for this error.
    pub fn into_parts(self) -> (r: (u16, ErrorResponse))
        ensures
            r.0 == self.status,
            r.1.code == self.code,
            r.1.message == self.message,
    {
        (self.status, ErrorResponse { code: self.code, message: self.message })
    }
}

} // verus!

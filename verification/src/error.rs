//! The API's error envelope: every failure answers `{ "error", "code" }`
//! with the status that fits it.

use vstd::prelude::*;
use crate::text::{concat2, to_owned};

verus! {

/// Error response returned on failures.
#[derive(Clone, Debug)]
pub struct ErrorResponse {
    /// Human-readable error message.
    pub error: String,
    /// Machine-readable error code.
    pub code: String,
}

/// A request failure.
#[derive(Clone, Debug)]
pub enum AppError {
    BadRequest(String),
    NotFound(String),
    NotImplemented(String),
    Internal(String),
}

/// The human-readable text of an error: its kind, a colon, the detail.
pub open spec fn app_error_text(e: AppError) -> Seq<char> {
    match e {
        AppError::BadRequest(m) => "Bad request: "@ + m@,
        AppError::NotFound(m) => "Not found: "@ + m@,
        AppError::NotImplemented(m) => "Not implemented: "@ + m@,
        AppError::Internal(m) => "Internal server error: "@ + m@,
    }
}

/// The HTTP status of an error.
pub open spec fn app_error_status(e: AppError) -> u16 {
    match e {
        AppError::BadRequest(_) => 400,
        AppError::NotFound(_) => 404,
        AppError::NotImplemented(_) => 501,
        AppError::Internal(_) => 500,
    }
}

/// The machine-readable code of an error.
pub open spec fn app_error_code(e: AppError) -> Seq<char> {
    match e {
        AppError::BadRequest(_) => "bad_request"@,
        AppError::NotFound(_) => "not_found"@,
        AppError::NotImplemented(_) => "not_implemented"@,
        AppError::Internal(_) => "internal_error"@,
    }
}

impl AppError {
    /// The human-readable text of the error.
    pub fn message(&self) -> (r: String)
        ensures
            r@ == app_error_text(*self),
    {
        match self {
            AppError::BadRequest(m) => concat2("Bad request: ", m.as_str()),
            AppError::NotFound(m) => concat2("Not found: ", m.as_str()),
            AppError::NotImplemented(m) => concat2("Not implemented: ", m.as_str()),
            AppError::Internal(m) => concat2("Internal server error: ", m.as_str()),
        }
    }

    /// The HTTP status of the error.
    pub fn status_code(&self) -> (r: u16)
        ensures
            r == app_error_status(*self),
    {
        match self {
            AppError::BadRequest(_) => 400,
            AppError::NotFound(_) => 404,
            AppError::NotImplemented(_) => 501,
            AppError::Internal(_) => 500,
        }
    }

    /// The machine-readable code of the error.
    pub fn code(&self) -> (r: &'static str)
        ensures
            r@ == app_error_code(*self),
    {
        match self {
            AppError::BadRequest(_) => "bad_request",
            AppError::NotFound(_) => "not_found",
            AppError::NotImplemented(_) => "not_implemented",
            AppError::Internal(_) => "internal_error",
        }
    }

    /// The status and body the error is answered with.
    pub fn to_response(&self) -> (r: (u16, ErrorResponse))
        ensures
            r.0 == app_error_status(*self),
            r.1.error@ == app_error_text(*self),
            r.1.code@ == app_error_code(*self),
    {
        (self.status_code(), ErrorResponse { error: self.message(), code: to_owned(self.code()) })
    }
}

/// Client errors are answered with a 4xx status and server errors with a 5xx
/// one, so only the latter are reported as failures of the service.
pub proof fn lemma_status_class(e: AppError)
    ensures
        (e is BadRequest || e is NotFound) <==> 400 <= app_error_status(e) < 500,
        (e is NotImplemented || e is Internal) <==> 500 <= app_error_status(e) < 600,
{
}

} // verus!

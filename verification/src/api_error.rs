//! The service's error taxonomy and how each kind is presented to HTTP
//! clients: a status code, a stable machine-readable code, and a message
//! that never leaks internal detail. Turning these three into an actual
//! response body stays with the HTTP layer.

use vstd::prelude::*;

verus! {

use vstd::string::StringExecFns;

/// The failures the service reports to its clients.
#[derive(Debug)]
pub enum AppError {
    /// The request carried no acceptable credentials.
    Unauthorized,
    /// The named object does not exist.
    NotFound(String),
    /// The request itself is malformed.
    BadRequest(String),
    /// An internal failure; its detail is for the server log only.
    Internal(String),
}

/// The HTTP status code owed for each error kind.
pub open spec fn spec_status_code(e: AppError) -> u16 {
    match e {
        AppError::Unauthorized => 401,
        AppError::NotFound(_) => 404,
        AppError::BadRequest(_) => 400,
        AppError::Internal(_) => 500,
    }
}

/// The stable machine-readable code owed for each error kind.
pub open spec fn spec_code_label(e: AppError) -> Seq<char> {
    match e {
        AppError::Unauthorized => "UNAUTHORIZED"@,
        AppError::NotFound(_) => "FILE_NOT_FOUND"@,
        AppError::BadRequest(_) => "BAD_REQUEST"@,
        AppError::Internal(_) => "INTERNAL_ERROR"@,
    }
}

/// The message shown to the client: the detail for the kinds a caller can
/// act on, and a fixed sentence for internal failures, whose detail must
/// not leak.
pub open spec fn spec_public_message(e: AppError) -> Seq<char> {
    match e {
        AppError::Unauthorized => "unauthorized"@,
        AppError::NotFound(m) => m@,
        AppError::BadRequest(m) => m@,
        AppError::Internal(_) => "An internal error occurred."@,
    }
}

impl AppError {
    /// The HTTP status code for this error.
    pub fn status_code(&self) -> (r: u16)
        ensures
            r == spec_status_code(*self),
    {
        match self {
            AppError::Unauthorized => 401,
            AppError::NotFound(_) => 404,
            AppError::BadRequest(_) => 400,
            AppError::Internal(_) => 500,
        }
    }

    /// The stable machine-readable code for this error.
    pub fn code_label(&self) -> (r: String)
        ensures
            r@ == spec_code_label(*self),
    {
        match self {
            AppError::Unauthorized => String::from_str("UNAUTHORIZED"),
            AppError::NotFound(_) => String::from_str("FILE_NOT_FOUND"),
            AppError::BadRequest(_) => String::from_str("BAD_REQUEST"),
            AppError::Internal(_) => String::from_str("INTERNAL_ERROR"),
        }
    }

    /// The message shown to the client, with internal detail withheld.
    pub fn public_message(&self) -> (r: String)
        ensures
            r@ == spec_public_message(*self),
    {
        match self {
            AppError::Unauthorized => String::from_str("unauthorized"),
            AppError::NotFound(m) => m.clone(),
            AppError::BadRequest(m) => m.clone(),
            AppError::Internal(_) => String::from_str("An internal error occurred."),
        }
    }
}

} // verus!

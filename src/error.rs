//! The closed set of failures that a request handler can report.
use vstd::prelude::*;

verus! {

#[verifier::external_type_specification]
#[verifier::external_body]
pub struct ExAnyhowError(anyhow::Error);

/// A failure reported by a handler: either an unexpected server-side fault
/// wrapping its underlying cause, or a request that the caller got wrong.
#[derive(Debug)]
pub enum AppError {
    InternalServerError(anyhow::Error),
    BadRequest(String),
}

pub const INTERNAL_SERVER_ERROR_TITLE: &'static str = "Internal Server Error";

pub const BAD_REQUEST_TITLE: &'static str = "Bad Request";

impl AppError {
    /// The HTTP status code of the variant.
    pub open spec fn status_spec(&self) -> u16 {
        match self {
            AppError::InternalServerError(_) => 500,
            AppError::BadRequest(_) => 400,
        }
    }

    /// The display string of the variant.
    pub open spec fn title_spec(&self) -> Seq<char> {
        match self {
            AppError::InternalServerError(_) => INTERNAL_SERVER_ERROR_TITLE@,
            AppError::BadRequest(_) => BAD_REQUEST_TITLE@,
        }
    }

    /// Wraps an underlying cause as an internal server error.
    pub fn wrap(cause: anyhow::Error) -> (r: AppError)
        ensures
            r == AppError::InternalServerError(cause),
    {
        AppError::InternalServerError(cause)
    }

    /// Rejects a request with a message for the caller.
    pub fn reject(message: String) -> (r: AppError)
        ensures
            r == AppError::BadRequest(message),
    {
        AppError::BadRequest(message)
    }

    /// The HTTP status code that reports this error: 500 for an internal
    /// server error, 400 for a bad request.
    pub fn status_code(&self) -> (r: u16)
        ensures
            r == self.status_spec(),
    {
        match self {
            AppError::InternalServerError(_) => 500,
            AppError::BadRequest(_) => 400,
        }
    }

    /// The display string of the variant, whatever it carries:
    /// "Internal Server Error" or "Bad Request".
    pub fn to_string(&self) -> (r: String)
        ensures
            r@ == self.title_spec(),
    {
        match self {
            AppError::InternalServerError(_) => String::from_str(INTERNAL_SERVER_ERROR_TITLE),
            AppError::BadRequest(_) => String::from_str(BAD_REQUEST_TITLE),
        }
    }
}

impl From<anyhow::Error> for AppError {
    fn from(cause: anyhow::Error) -> AppError {
        AppError::InternalServerError(cause)
    }
}

impl vstd::std_specs::convert::FromSpecImpl<anyhow::Error> for AppError {
    open spec fn obeys_from_spec() -> bool {
        true
    }

    open spec fn from_spec(cause: anyhow::Error) -> AppError {
        AppError::InternalServerError(cause)
    }
}

} // verus!

//! The error type of the JSON API, and the answer it gives for each error.
use vstd::prelude::*;
use crate::text::owned;

verus! {

/// The failures of the JSON API.
#[derive(Debug)]
pub enum AppError {
    /// resource not found
    NotFound(String),
    /// conflict
    Conflict(String),
    /// unauthorized
    Unauthorized(String),
    /// validation failed
    Validation(String),
    /// configuration error
    Config(String),
    /// internal error; the message is logged, not shown
    Internal(String),
    /// the database reported a failure
    Database,
    /// a database migration failed
    Migration,
    /// an input or output operation failed
    Io,
}

/// A result of the JSON API.
pub type AppResult<T> = Result<T, AppError>;

/// The answer to an error: its HTTP status, its code and the message shown.
pub struct ErrorResponse {
    pub status: u16,
    pub error: &'static str,
    pub message: String,
}

/// The status, code and shown message of each error. Internal failures are shown
/// without their details.
pub open spec fn spec_error_response(e: AppError) -> (u16, Seq<char>, Seq<char>) {
    match e {
        AppError::NotFound(m) => (404u16, "not_found"@, m@),
        AppError::Conflict(m) => (409u16, "conflict"@, m@),
        AppError::Unauthorized(m) => (401u16, "unauthorized"@, m@),
        AppError::Validation(m) => (400u16, "validation_error"@, m@),
        AppError::Config(m) => (500u16, "config_error"@, m@),
        AppError::Internal(_) => (500u16, "internal_error"@, "internal server error"@),
        AppError::Database => (500u16, "database_error"@, "database operation failed"@),
        AppError::Migration => (500u16, "migration_error"@, "database migration failed"@),
        AppError::Io => (500u16, "io_error"@, "i/o operation failed"@),
    }
}

impl AppError {
    /// The answer that the API gives for the error.
    pub fn error_response(self) -> (r: ErrorResponse)
        ensures
            (r.status, r.error@, r.message@) == spec_error_response(self),
    {
        match self {
            AppError::NotFound(message) => ErrorResponse { status: 404, error: "not_found", message },
            AppError::Conflict(message) => ErrorResponse { status: 409, error: "conflict", message },
            AppError::Unauthorized(message) => ErrorResponse {
                status: 401,
                error: "unauthorized",
                message,
            },
            AppError::Validation(message) => ErrorResponse {
                status: 400,
                error: "validation_error",
                message,
            },
            AppError::Config(message) => ErrorResponse { status: 500, error: "config_error", message },
            AppError::Internal(_) => ErrorResponse {
                status: 500,
                error: "internal_error",
                message: owned("internal server error"),
            },
            AppError::Database => ErrorResponse {
                status: 500,
                error: "database_error",
                message: owned("database operation failed"),
            },
            AppError::Migration => ErrorResponse {
                status: 500,
                error: "migration_error",
                message: owned("database migration failed"),
            },
            AppError::Io => ErrorResponse {
                status: 500,
                error: "io_error",
                message: owned("i/o operation failed"),
            },
        }
    }
}

/// Only the failures of the request itself answer with a status below 500; an
/// internal failure never shows its own message.
pub proof fn law_server_failures_hide_details(e: AppError)
    ensures
        spec_error_response(e).0 == 500u16 <==> (e is Config || e is Internal || e is Database
            || e is Migration || e is Io),
        e is Internal ==> spec_error_response(e).2 == "internal server error"@,
{
}

} // verus!

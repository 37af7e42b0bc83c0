//! The error type of the web pages and their services.
use vstd::prelude::*;

verus! {

/// Errors of the page handlers and post services.
pub enum AppError {
    /// The request is malformed; the message is shown to the user.
    BadRequest(String),
    /// An internal failure whose details are not shown.
    Internal,
    /// The database reported a failure.
    Database,
    /// A page template failed to render.
    Template,
}

/// Whether `r` is a `BadRequest` failure carrying the message `m`.
pub open spec fn is_bad_request<T>(r: Result<T, AppError>, m: Seq<char>) -> bool {
    r matches Err(AppError::BadRequest(s)) && s@ == m
}

} // verus!

pub mod api;
pub mod clock;
pub mod controllers;
pub mod config;
pub mod db;
pub mod error;
pub mod models;
pub mod numbers;
pub mod text;
pub mod utils;

use vstd::prelude::*;

verus! {

broadcast use vstd::string::group_string_axioms;

/// Which origins the JSON API accepts requests from.
pub enum CorsOrigin {
    /// Any origin.
    Any,
    /// This origin only.
    Exact(String),
}

/// Whether a character may stand in an HTTP header value: a tab, or anything from
/// the space on but the delete character (a character beyond ASCII is written as
/// bytes from 128 on, which all may stand).
pub open spec fn header_value_char(c: char) -> bool {
    c == '\t' || (' ' <= c && c != '\x7f')
}

/// Parses the text as a header value with `http::HeaderValue::from_str` (through
/// `axum::http`). Claimed, as its source shows: the parse succeeds exactly when
/// every byte is a tab or a byte from 32 on other than 127, that is when every
/// character is `header_value_char`.
#[verifier::external_body]
fn is_header_value(s: &str) -> (r: bool)
    ensures
        r == (forall|i: int| 0 <= i < s@.len() ==> header_value_char(#[trigger] s@[i])),
{
    axum::http::HeaderValue::from_str(s).is_ok()
}

/// The origins that the API answers: any for `*`; else the given one, which must be
/// a valid header value.
pub fn cors_origin(allowed_origin: &str) -> (r: utils::error::AppResult<CorsOrigin>)
    ensures
        allowed_origin@ == "*"@ ==> r matches Ok(CorsOrigin::Any),
        allowed_origin@ != "*"@ && (forall|i: int|
            0 <= i < allowed_origin@.len() ==> header_value_char(#[trigger] allowed_origin@[i]))
            ==> (r matches Ok(CorsOrigin::Exact(o)) && o@ == allowed_origin@),
        allowed_origin@ != "*"@ && !(forall|i: int|
            0 <= i < allowed_origin@.len() ==> header_value_char(#[trigger] allowed_origin@[i]))
            ==> (r matches Err(utils::error::AppError::Config(m))
            && m@ == "ALLOWED_ORIGIN is not a valid header value"@),
{
    if text::str_eq(allowed_origin, "*") {
        return Ok(CorsOrigin::Any);
    }
    if !is_header_value(allowed_origin) {
        return Err(
            utils::error::AppError::Config(text::owned("ALLOWED_ORIGIN is not a valid header value")),
        );
    }
    Ok(CorsOrigin::Exact(text::owned(allowed_origin)))
}

} // verus!

//! The settings of the web pages that the environment gives as text: whether the
//! session cookie is for HTTPS only, and how long a session lasts.
use vstd::prelude::*;
use crate::numbers::{parse_u64, spec_parse_in};
use crate::text::{spec_ascii_lowercase, str_eq, to_ascii_lowercase};

verus! {

broadcast use vstd::string::group_string_axioms;

/// Whether a `COOKIE_SECURE` value turns the setting on: `1`, `true`, `yes` or `on`,
/// in any case of letters.
pub open spec fn spec_cookie_secure(value: Option<Seq<char>>) -> bool {
    match value {
        Some(v) => {
            let l = spec_ascii_lowercase(v);
            l == "1"@ || l == "true"@ || l == "yes"@ || l == "on"@
        },
        None => false,
    }
}

/// Reads `COOKIE_SECURE`.
pub fn cookie_secure_from(value: Option<&str>) -> (r: bool)
    ensures
        r == spec_cookie_secure(crate::api::posts::services::opt_view(value)),
{
    match value {
        Some(v) => {
            let l = to_ascii_lowercase(v);
            str_eq(l.as_str(), "1") || str_eq(l.as_str(), "true") || str_eq(l.as_str(), "yes")
                || str_eq(l.as_str(), "on")
        },
        None => false,
    }
}

/// The length of a session in seconds from `SESSION_TTL_SECONDS`: its value when it
/// reads as a `u64`, else one day.
pub open spec fn spec_session_ttl(value: Option<Seq<char>>) -> int {
    match value {
        Some(v) => match spec_parse_in(v, false, 0, u64::MAX as int) {
            Some(n) => n,
            None => 86400,
        },
        None => 86400,
    }
}

/// Reads `SESSION_TTL_SECONDS`.
pub fn session_ttl_seconds_from(value: Option<&str>) -> (r: u64)
    ensures
        r as int == spec_session_ttl(crate::api::posts::services::opt_view(value)),
{
    match value {
        Some(v) => match parse_u64(v) {
            Some(n) => n,
            None => 86400,
        },
        None => 86400,
    }
}

} // verus!

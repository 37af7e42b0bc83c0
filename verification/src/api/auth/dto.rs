//! The forms and queries of the authentication pages.
use vstd::prelude::*;

verus! {

/// The login and registration form.
pub struct AuthForm {
    pub username: String,
    pub password: String,
}

/// The query of the login page.
pub struct LoginQuery {
    pub tab: Option<String>,
}

} // verus!

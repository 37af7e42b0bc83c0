//! The answer of the authentication endpoints.
use vstd::prelude::*;
use crate::models::user::User;

verus! {

/// A token and the user it was issued for.
#[derive(Debug)]
pub struct AuthResponse {
    pub token: String,
    pub user: User,
}

} // verus!

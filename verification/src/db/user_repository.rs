//! How a failure to store a user of the JSON API is told apart.
use vstd::prelude::*;
use crate::text::{contains, has_substring, owned, str_eq};
use crate::models::user::User;
use crate::utils::error::{AppError, AppResult};

verus! {

broadcast use vstd::string::group_string_axioms;

/// What a database error says of itself: its code, if any, and its message.
pub struct DatabaseErrorInfo {
    pub code: Option<String>,
    pub message: String,
}

/// Whether an error is the violation of the uniqueness of user names: a database
/// error with SQLite's extended code 2067 (`SQLITE_CONSTRAINT_UNIQUE`), or one whose
/// message names the constraint on `users.name`.
pub open spec fn spec_unique_name_violation(error: Option<DatabaseErrorInfo>) -> bool {
    match error {
        None => false,
        Some(e) => crate::models::item::opt_string_view(e.code) == Some("2067"@) || has_substring(
            e.message@,
            "UNIQUE constraint failed: users.name"@,
        ),
    }
}

/// Tells whether storing a user failed because the name is taken; `None` stands for
/// an error that is no database error.
pub fn is_unique_name_violation(error: Option<&DatabaseErrorInfo>) -> (r: bool)
    ensures
        r == spec_unique_name_violation(match error {
            Some(e) => Some(*e),
            None => None,
        }),
{
    let database_error = match error {
        Some(e) => e,
        None => return false,
    };
    match &database_error.code {
        Some(c) => if str_eq(c.as_str(), "2067") {
            return true;
        },
        None => {},
    }
    contains(database_error.message.as_str(), "UNIQUE constraint failed: users.name")
}

/// A new random identifier for a user.
pub fn new_user_id() -> (r: String)
    ensures
        crate::db::item_repository::uuid_v4_text(r@),
{
    crate::db::item_repository::new_uuid()
}

/// What a failed insertion of a user is answered with: a name already taken is a
/// conflict; any other failure is `None`, the database's own error, which the caller
/// keeps.
pub fn user_insert_failure(error: Option<&DatabaseErrorInfo>) -> (r: Option<AppError>)
    ensures
        spec_unique_name_violation(match error {
            Some(e) => Some(*e),
            None => None,
        }) ==> (r matches Some(AppError::Conflict(m)) && m@ == "user name already exists"@),
        !spec_unique_name_violation(match error {
            Some(e) => Some(*e),
            None => None,
        }) ==> r is None,
{
    if is_unique_name_violation(error) {
        Some(AppError::Conflict(owned("user name already exists")))
    } else {
        None
    }
}

/// The user read back after its insertion; its absence is an internal failure.
pub fn reloaded_user(user: Option<User>) -> (r: AppResult<User>)
    ensures
        user matches Some(u) ==> (r matches Ok(x) && x == u),
        user is None ==> (r matches Err(AppError::Internal(m)) && m@
            == "created user could not be reloaded"@),
{
    match user {
        Some(u) => Ok(u),
        None => Err(AppError::Internal(owned("created user could not be reloaded"))),
    }
}

} // verus!

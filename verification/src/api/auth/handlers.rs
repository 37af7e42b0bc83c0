//! What the login and registration pages answer to each outcome. Reading the form,
//! the cookies and the database stand outside this library.
use vstd::prelude::*;
use crate::api::auth::services::AuthError;
use crate::error::AppError;
use crate::text::owned;

verus! {

broadcast use vstd::string::group_string_axioms;

/// The home page address that reopens the `tab` form with the error code `err`.
pub open spec fn spec_auth_error_location(tab: Seq<char>, err: Seq<char>) -> Seq<char> {
    "/?auth="@ + tab + "&err="@ + err
}

/// The address to send a failed login or registration to.
pub fn redirect_home_auth_error(tab: &str, err: &str) -> (r: String)
    ensures
        r@ == spec_auth_error_location(tab@, err@),
{
    let mut location = owned("/?auth=");
    location.append(tab);
    location.append("&err=");
    location.append(err);
    location
}

/// The answer to a failed login: a database or hashing failure is an error of the
/// page; every other failure sends the user back with `invalid_credentials`.
pub fn login_failure(e: AuthError) -> (r: Result<String, AppError>)
    ensures
        e is Database ==> r matches Err(AppError::Database),
        e is PasswordHash ==> r matches Err(AppError::Internal),
        !(e is Database || e is PasswordHash) ==> (r matches Ok(l) && l@ == spec_auth_error_location(
            "login"@,
            "invalid_credentials"@,
        )),
{
    match e {
        AuthError::Database => Err(AppError::Database),
        AuthError::PasswordHash => Err(AppError::Internal),
        _ => Ok(redirect_home_auth_error("login", "invalid_credentials")),
    }
}

/// The error code that a failed registration is reported with.
pub open spec fn spec_register_error_code(e: AuthError) -> Seq<char> {
    match e {
        AuthError::InvalidUsername => "invalid_username"@,
        AuthError::InvalidPassword => "invalid_password"@,
        AuthError::UsernameTaken => "username_taken"@,
        _ => "registration_failed"@,
    }
}

/// The answer to a failed registration: a database or hashing failure is an error of
/// the page; every other failure sends the user back with its code.
pub fn register_failure(e: AuthError) -> (r: Result<String, AppError>)
    ensures
        e is Database ==> r matches Err(AppError::Database),
        e is PasswordHash ==> r matches Err(AppError::Internal),
        !(e is Database || e is PasswordHash) ==> (r matches Ok(l) && l@ == spec_auth_error_location(
            "register"@,
            spec_register_error_code(e),
        )),
{
    match e {
        AuthError::InvalidUsername => Ok(redirect_home_auth_error("register", "invalid_username")),
        AuthError::InvalidPassword => Ok(redirect_home_auth_error("register", "invalid_password")),
        AuthError::UsernameTaken => Ok(redirect_home_auth_error("register", "username_taken")),
        AuthError::Database => Err(AppError::Database),
        AuthError::PasswordHash => Err(AppError::Internal),
        AuthError::InvalidCredentials => Ok(
            redirect_home_auth_error("register", "registration_failed"),
        ),
    }
}

} // verus!

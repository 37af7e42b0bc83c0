//! The decisions of the registration and login endpoints of the JSON API. Storing
//! and looking up users, and signing tokens, stand outside this library.
use vstd::prelude::*;
use crate::api::auth::services::{spec_argon2_check, PasswordCheck};
use crate::models::user::{LoginRequest, RegisterRequest, User, UserWithPassword, spec_register_check, spec_login_check};
use crate::text::{owned, spec_trim};
use crate::utils::auth::{hash_password, verify_password};
use crate::utils::error::{AppError, AppResult};

verus! {

broadcast use vstd::string::group_string_axioms;

/// What registering stores: the trimmed name and the hash of the password.
pub struct Registration {
    pub name: String,
    pub password_hash: String,
}

/// Whether `r` is a validation failure with message `m`.
pub open spec fn is_validation<T>(r: AppResult<T>, m: Result<(), String>) -> bool {
    m matches Err(x) && r matches Err(AppError::Validation(y)) && x@ == y@
}

/// Checks a registration request and hashes its password.
pub fn registration(payload: &RegisterRequest) -> (r: AppResult<Registration>)
    ensures
        match spec_register_check(payload.name@, payload.password@) {
            Err(m) => r matches Err(AppError::Validation(x)) && x@ == m,
            Ok(()) => r matches Ok(reg) && reg.name@ == spec_trim(payload.name@) && spec_argon2_check(
                reg.password_hash@,
                payload.password@,
            ) == PasswordCheck::Match && spec_trim(payload.name@).len() > 0,
        },
{
    match payload.validate() {
        Ok(()) => {},
        Err(m) => return Err(AppError::Validation(m)),
    }
    let name = payload.sanitized_name();
    let password_hash = hash_password(payload.password.as_str())?;
    Ok(Registration { name, password_hash })
}

/// Checks a login request and gives the name to look up.
pub fn login_name(payload: &LoginRequest) -> (r: AppResult<String>)
    ensures
        match spec_login_check(payload.name@, payload.password@) {
            Err(m) => r matches Err(AppError::Validation(x)) && x@ == m,
            Ok(()) => r matches Ok(n) && n@ == spec_trim(payload.name@) && n@.len() > 0,
        },
{
    match payload.validate() {
        Ok(()) => {},
        Err(m) => return Err(AppError::Validation(m)),
    }
    Ok(payload.sanitized_name())
}

/// Whether `r` is the refusal of a login.
pub open spec fn is_refused<T>(r: AppResult<T>) -> bool {
    r matches Err(AppError::Unauthorized(m)) && m@ == "invalid credentials"@
}

/// Judges a login from the user found under the name, if any: no user or a password
/// that does not match is refused. When no user is found the password is hashed all
/// the same, so that both refusals take a similar time.
pub fn login_user(found: Option<UserWithPassword>, password: &str) -> (r: AppResult<User>)
    ensures
        found is None ==> is_refused(r),
        found matches Some(u) ==> {
            let c = spec_argon2_check(u.password_hash@, password@);
            &&& (c == PasswordCheck::Malformed ==> (r matches Err(AppError::Internal(_))))
            &&& (c == PasswordCheck::Match ==> (r matches Ok(x) && x.id == u.id && x.name == u.name
                && x.creation_date == u.creation_date && x.modification_date == u.modification_date))
            &&& ((c == PasswordCheck::Mismatch || c == PasswordCheck::Failed) ==> is_refused(r))
        },
{
    let user_with_password = match found {
        Some(u) => u,
        None => {
            let _ = hash_password(password);
            return Err(AppError::Unauthorized(owned("invalid credentials")));
        },
    };
    let password_is_valid = verify_password(password, user_with_password.password_hash.as_str())?;
    if !password_is_valid {
        return Err(AppError::Unauthorized(owned("invalid credentials")));
    }
    let user: User = User::from(user_with_password);
    Ok(user)
}

} // verus!

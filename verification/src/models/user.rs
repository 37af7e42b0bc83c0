//! Users of the JSON API and the checks of the requests that register or log in one.
use vstd::prelude::*;
use crate::text::{spec_trim, trim, byte_len, owned};
use crate::models::item::is_err_msg;

verus! {

/// A user as the API shows it.
#[derive(Clone, Debug)]
pub struct User {
    pub id: String,
    pub name: String,
    pub creation_date: String,
    pub modification_date: String,
}

/// A user with the hash of their password, as stored.
#[derive(Clone, Debug)]
pub struct UserWithPassword {
    pub id: String,
    pub name: String,
    pub password_hash: String,
    pub creation_date: String,
    pub modification_date: String,
}

impl From<UserWithPassword> for User {
    fn from(value: UserWithPassword) -> (r: Self) {
        User {
            id: value.id,
            name: value.name,
            creation_date: value.creation_date,
            modification_date: value.modification_date,
        }
    }
}

impl vstd::std_specs::convert::FromSpecImpl<UserWithPassword> for User {
    open spec fn obeys_from_spec() -> bool {
        true
    }

    open spec fn from_spec(v: UserWithPassword) -> User {
        User {
            id: v.id,
            name: v.name,
            creation_date: v.creation_date,
            modification_date: v.modification_date,
        }
    }
}

/// The body of a registration request.
#[derive(Debug)]
pub struct RegisterRequest {
    pub name: String,
    pub password: String,
}

/// The body of a login request.
#[derive(Debug)]
pub struct LoginRequest {
    pub name: String,
    pub password: String,
}

/// The outcome of checking a user name: the trimmed name must have 1 to 80 bytes.
pub open spec fn user_name_result(name: Seq<char>, r: Result<(), String>) -> bool {
    if spec_trim(name).len() == 0 {
        is_err_msg(r, "name is required"@)
    } else if byte_len(spec_trim(name)) > 80 {
        is_err_msg(r, "name must be 80 characters or less"@)
    } else {
        r is Ok
    }
}

/// The outcome of checking a new password: 12 to 256 bytes.
pub open spec fn password_result(password: Seq<char>, r: Result<(), String>) -> bool {
    if byte_len(password) < 12 {
        is_err_msg(r, "password must be at least 12 characters"@)
    } else if byte_len(password) > 256 {
        is_err_msg(r, "password must be 256 characters or less"@)
    } else {
        r is Ok
    }
}

/// What checking a registration finds: the name's failure first, then the
/// password's, each with its message.
pub open spec fn spec_register_check(name: Seq<char>, password: Seq<char>) -> Result<(), Seq<char>> {
    if spec_trim(name).len() == 0 {
        Err("name is required"@)
    } else if byte_len(spec_trim(name)) > 80 {
        Err("name must be 80 characters or less"@)
    } else if byte_len(password) < 12 {
        Err("password must be at least 12 characters"@)
    } else if byte_len(password) > 256 {
        Err("password must be 256 characters or less"@)
    } else {
        Ok(())
    }
}

/// What checking a login finds: the name's failure first, then a missing password,
/// each with its message.
pub open spec fn spec_login_check(name: Seq<char>, password: Seq<char>) -> Result<(), Seq<char>> {
    if spec_trim(name).len() == 0 {
        Err("name is required"@)
    } else if byte_len(spec_trim(name)) > 80 {
        Err("name must be 80 characters or less"@)
    } else if password.len() == 0 {
        Err("password is required"@)
    } else {
        Ok(())
    }
}

impl RegisterRequest {
    /// Checks the name, then the password.
    pub fn validate(&self) -> (r: Result<(), String>)
        ensures
            spec_trim(self.name@).len() == 0 || byte_len(spec_trim(self.name@)) > 80
                ==> user_name_result(self.name@, r),
            !(spec_trim(self.name@).len() == 0 || byte_len(spec_trim(self.name@)) > 80)
                ==> password_result(self.password@, r),
            match spec_register_check(self.name@, self.password@) {
                Ok(()) => r is Ok,
                Err(m) => is_err_msg(r, m),
            },
    {
        validate_user_name(self.name.as_str())?;
        validate_password(self.password.as_str())?;
        Ok(())
    }

    /// The name to store: the trimmed name.
    pub fn sanitized_name(&self) -> (r: String)
        ensures
            r@ == spec_trim(self.name@),
    {
        trim(self.name.as_str())
    }
}

impl LoginRequest {
    /// Checks the name, then that a password is given.
    pub fn validate(&self) -> (r: Result<(), String>)
        ensures
            spec_trim(self.name@).len() == 0 || byte_len(spec_trim(self.name@)) > 80
                ==> user_name_result(self.name@, r),
            !(spec_trim(self.name@).len() == 0 || byte_len(spec_trim(self.name@)) > 80) ==> (if self.password@.len()
                == 0 {
                is_err_msg(r, "password is required"@)
            } else {
                r is Ok
            }),
            match spec_login_check(self.name@, self.password@) {
                Ok(()) => r is Ok,
                Err(m) => is_err_msg(r, m),
            },
    {
        validate_user_name(self.name.as_str())?;
        if self.password.as_str().is_empty() {
            return Err(owned("password is required"));
        }
        Ok(())
    }

    /// The name to look up: the trimmed name.
    pub fn sanitized_name(&self) -> (r: String)
        ensures
            r@ == spec_trim(self.name@),
    {
        trim(self.name.as_str())
    }
}

/// Checks a user name.
pub fn validate_user_name(name: &str) -> (r: Result<(), String>)
    ensures
        user_name_result(name@, r),
{
    let trimmed = trim(name);
    if trimmed.as_str().is_empty() {
        return Err(owned("name is required"));
    }
    if trimmed.as_str().as_bytes().len() > 80 {
        return Err(owned("name must be 80 characters or less"));
    }
    Ok(())
}

/// Checks a new password.
pub fn validate_password(password: &str) -> (r: Result<(), String>)
    ensures
        password_result(password@, r),
{
    if password.as_bytes().len() < 12 {
        return Err(owned("password must be at least 12 characters"));
    }
    if password.as_bytes().len() > 256 {
        return Err(owned("password must be 256 characters or less"));
    }
    Ok(())
}

} // verus!

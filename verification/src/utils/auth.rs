//! Password hashing and the claims of the tokens of the JSON API.
use vstd::prelude::*;
use crate::api::auth::services::{argon2_check, argon2_hash, spec_argon2_check, PasswordCheck};
use crate::utils::error::{AppError, AppResult};
use crate::text::owned;

verus! {

broadcast use vstd::string::group_string_axioms;

/// Whether `r` is an internal failure with message `m`.
pub open spec fn is_internal<T>(r: AppResult<T>, m: Seq<char>) -> bool {
    r matches Err(AppError::Internal(s)) && s@ == m
}

/// Hashes a password for storage.
pub fn hash_password(password: &str) -> (r: AppResult<String>)
    ensures
        r matches Ok(h) ==> spec_argon2_check(h@, password@) == PasswordCheck::Match,
        r is Err ==> is_internal(r, "failed to hash password"@),
        crate::text::byte_len(password@) <= u32::MAX ==> r is Ok,
{
    match argon2_hash(password) {
        Some(h) => Ok(h),
        None => Err(AppError::Internal(owned("failed to hash password"))),
    }
}

/// Whether `password` matches the stored hash; a stored text that is no hash string is
/// an internal failure.
pub fn verify_password(password: &str, hash: &str) -> (r: AppResult<bool>)
    ensures
        spec_argon2_check(hash@, password@) == PasswordCheck::Malformed ==> is_internal(
            r,
            "stored password hash is invalid"@,
        ),
        spec_argon2_check(hash@, password@) != PasswordCheck::Malformed ==> r == Ok::<bool, AppError>(
            spec_argon2_check(hash@, password@) == PasswordCheck::Match,
        ),
{
    match argon2_check(hash, password) {
        PasswordCheck::Malformed => Err(AppError::Internal(owned("stored password hash is invalid"))),
        PasswordCheck::Match => Ok(true),
        _ => Ok(false),
    }
}

/// The claims of a token: the user, when it was issued and when it expires.
pub struct Claims {
    pub sub: String,
    pub name: String,
    pub iat: usize,
    pub exp: usize,
}

/// The expiry of a token issued at `now` for `minutes` minutes: the minutes are
/// turned into seconds with saturation, and a sum beyond `i64` is no expiry.
pub open spec fn spec_jwt_expiry(now: int, minutes: int) -> Option<int> {
    let secs = if minutes * 60 > i64::MAX {
        i64::MAX as int
    } else if minutes * 60 < i64::MIN {
        i64::MIN as int
    } else {
        minutes * 60
    };
    if i64::MIN <= now + secs <= i64::MAX {
        Some(now + secs)
    } else {
        None
    }
}

/// The claims of a token for a user, issued at `now`.
pub fn jwt_claims(user_id: &str, user_name: &str, now: i64, expiration_minutes: i64) -> (r: AppResult<Claims>)
    ensures
        spec_jwt_expiry(now as int, expiration_minutes as int) is None ==> is_internal(
            r,
            "invalid jwt expiration configuration"@,
        ),
        spec_jwt_expiry(now as int, expiration_minutes as int) matches Some(e) ==> (r matches Ok(c)
            && c.sub@ == user_id@ && c.name@ == user_name@ && c.iat == now as usize && c.exp == (
        e as i64) as usize),
{
    let wide: i128 = expiration_minutes as i128 * 60;
    let secs: i64 = if wide > i64::MAX as i128 {
        i64::MAX
    } else if wide < i64::MIN as i128 {
        i64::MIN
    } else {
        wide as i64
    };
    let exp = match now.checked_add(secs) {
        Some(e) => e,
        None => return Err(AppError::Internal(owned("invalid jwt expiration configuration"))),
    };
    Ok(Claims { sub: owned(user_id), name: owned(user_name), iat: now as usize, exp: exp as usize })
}

/// Reads the clock with `chrono::Utc::now` and gives its Unix timestamp
/// (`DateTime::timestamp`). Claimed: the timestamp is one that a `DateTime<Utc>` can
/// hold, within the years -262143 to 262142, so it lies between -8334632851200 and
/// 8210298412799 (bounds a little wider than those years). Which instant it is
/// depends on the clock and is not said.
#[verifier::external_body]
fn utc_timestamp() -> (r: i64)
    ensures
        -8334632851200 <= r <= 8210298412799,
{
    chrono::Utc::now().timestamp()
}

/// The claims of a token issued now for a user. The token itself is the JSON Web
/// Token of these claims, signed with the secret.
pub fn issue_jwt_claims(user_id: &str, user_name: &str, expiration_minutes: i64) -> (r: AppResult<Claims>)
    ensures
        r matches Ok(c) ==> c.sub@ == user_id@ && c.name@ == user_name@,
        r matches Ok(c) ==> exists|now: i64| #![trigger spec_jwt_expiry(now as int, expiration_minutes as int)] c.iat == now as usize && (spec_jwt_expiry(now as int, expiration_minutes as int) matches Some(e) && c.exp == (e as i64) as usize),
        r is Err ==> is_internal(r, "invalid jwt expiration configuration"@),
        -100_000_000_000_000 <= expiration_minutes <= 100_000_000_000_000 ==> r is Ok,
{
    let now = utc_timestamp();
    jwt_claims(user_id, user_name, now, expiration_minutes)
}

} // verus!

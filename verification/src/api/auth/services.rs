//! Accounts and sessions of the web pages: the checks of a new account, password
//! hashing and verification, session tokens and their hashes. The statements to the
//! database stand outside this library; the functions here prepare what they store
//! and judge what they read back.
use vstd::prelude::*;
use crate::numbers::{hex_lower, to_hex_lower};
use crate::text::{byte_len, chars_of, contains, has_substring, owned};

use argon2::password_hash::PasswordHasher;
use argon2::password_hash::PasswordVerifier;
use base64::Engine;
use rand::RngCore;
use sha2::Digest;
verus! {

broadcast use vstd::string::group_string_axioms;

/// The name of the cookie that holds the session token.
pub const SESSION_COOKIE: &'static str = "lg_session";

/// A signed-in user.
#[derive(Clone, Debug)]
pub struct AuthUser {
    pub id: i64,
    pub username: String,
}

/// The failures of registration and login.
#[derive(Debug)]
pub enum AuthError {
    /// username must be 3-32 characters and use letters, numbers, underscores, or hyphens
    InvalidUsername,
    /// password must be at least 8 characters
    InvalidPassword,
    /// username already exists
    UsernameTaken,
    /// invalid credentials
    InvalidCredentials,
    /// password hash error
    PasswordHash,
    /// the database reported a failure
    Database,
}

/// The message that each failure is displayed with.
pub open spec fn spec_auth_error_message(e: AuthError) -> Seq<char> {
    match e {
        AuthError::InvalidUsername => "username must be 3-32 characters and use letters, numbers, underscores, or hyphens"@,
        AuthError::InvalidPassword => "password must be at least 8 characters"@,
        AuthError::UsernameTaken => "username already exists"@,
        AuthError::InvalidCredentials => "invalid credentials"@,
        AuthError::PasswordHash => "password hash error"@,
        AuthError::Database => "database error"@,
    }
}

impl AuthError {
    /// The message of the failure.
    pub fn message(&self) -> (r: String)
        ensures
            r@ == spec_auth_error_message(*self),
    {
        match self {
            AuthError::InvalidUsername => owned(
                "username must be 3-32 characters and use letters, numbers, underscores, or hyphens",
            ),
            AuthError::InvalidPassword => owned("password must be at least 8 characters"),
            AuthError::UsernameTaken => owned("username already exists"),
            AuthError::InvalidCredentials => owned("invalid credentials"),
            AuthError::PasswordHash => owned("password hash error"),
            AuthError::Database => owned("database error"),
        }
    }
}

// ---------------------------------------------------------------------------
// Checks of a new account
// ---------------------------------------------------------------------------

/// A character allowed in a username: an ASCII letter or digit, `_` or `-`.
pub open spec fn username_char(c: char) -> bool {
    crate::text::is_ascii_alnum(c) || c == '_' || c == '-'
}

/// Whether `s` is an acceptable username: 3 to 32 bytes of allowed characters.
pub open spec fn username_ok(s: Seq<char>) -> bool {
    3 <= byte_len(s) <= 32 && forall|i: int| 0 <= i < s.len() ==> username_char(#[trigger] s[i])
}

/// The usernames accepted are exactly the texts of 3 to 32 characters, each an ASCII
/// letter of either case, an ASCII digit, `_` or `-`.
pub proof fn law_username_characters(s: Seq<char>)
    ensures
        username_ok(s) <==> (3 <= s.len() <= 32 && forall|i: int|
            0 <= i < s.len() ==> (('A' <= #[trigger] s[i] && s[i] <= 'Z') || ('a' <= s[i] && s[i] <= 'z')
                || ('0' <= s[i] && s[i] <= '9') || s[i] == '_' || s[i] == '-')),
{
    let allowed = forall|i: int|
        0 <= i < s.len() ==> (('A' <= #[trigger] s[i] && s[i] <= 'Z') || ('a' <= s[i] && s[i] <= 'z')
            || ('0' <= s[i] && s[i] <= '9') || s[i] == '_' || s[i] == '-');
    if allowed || (forall|i: int| 0 <= i < s.len() ==> username_char(#[trigger] s[i])) {
        assert(vstd::utf8::is_ascii_chars(s));
        vstd::utf8::is_ascii_chars_encode_utf8(s);
        assert(byte_len(s) == s.len());
    }
}

/// Checks a username.
pub fn validate_username(username: &str) -> (r: Result<(), AuthError>)
    ensures
        username_ok(username@) ==> r is Ok,
        !username_ok(username@) ==> r matches Err(AuthError::InvalidUsername),
{
    let n = username.as_bytes().len();
    let valid_length = 3 <= n && n <= 32;
    let v = chars_of(username);
    let mut valid_chars = true;
    let mut i: usize = 0;
    while i < v.len()
        invariant
            v@ == username@,
            i <= v.len(),
            valid_chars == (forall|k: int| 0 <= k < i ==> username_char(#[trigger] v@[k])),
        decreases v.len() - i,
    {
        let c = v[i];
        let ok = ('0' <= c && c <= '9') || ('a' <= c && c <= 'z') || ('A' <= c && c <= 'Z')
            || c == '_' || c == '-';
        valid_chars = valid_chars && ok;
        i = i + 1;
    }
    if valid_length && valid_chars {
        Ok(())
    } else {
        Err(AuthError::InvalidUsername)
    }
}

/// Whether `s` is an acceptable password: 8 to 128 bytes.
pub open spec fn password_ok(s: Seq<char>) -> bool {
    8 <= byte_len(s) <= 128
}

/// Checks a password.
pub fn validate_password(password: &str) -> (r: Result<(), AuthError>)
    ensures
        password_ok(password@) ==> r is Ok,
        !password_ok(password@) ==> r matches Err(AuthError::InvalidPassword),
{
    let n = password.as_bytes().len();
    if 8 <= n && n <= 128 {
        Ok(())
    } else {
        Err(AuthError::InvalidPassword)
    }
}

// ---------------------------------------------------------------------------
// Passwords
// ---------------------------------------------------------------------------

/// What checking a password against a stored Argon2 hash finds.
#[derive(Clone, Copy, PartialEq, Eq, Structural, Debug)]
pub enum PasswordCheck {
    /// The password matches the hash.
    Match,
    /// The hash is well formed and the password does not match it.
    Mismatch,
    /// The stored text is not a PHC hash string.
    Malformed,
    /// Verification failed for another reason (an unsupported algorithm or parameters).
    Failed,
}

/// What `argon2` finds when it checks `password` against the PHC string `password_hash`.
pub uninterp spec fn spec_argon2_check(password_hash: Seq<char>, password: Seq<char>) -> PasswordCheck;

/// Hashes `password` with `argon2::Argon2::default()` (`PasswordHasher::hash_password`)
/// and a salt that `password_hash::SaltString::generate` draws from the operating
/// system, giving the PHC string. Claimed: when it succeeds, checking the same password
/// against the string matches (the salt and parameters travel in the string); and it
/// succeeds for every password of at most `u32::MAX` bytes, since the only failures
/// left with the default parameters and a generated 16-byte salt are a longer password.
/// The string itself depends on the salt, so nothing more is said of it.
#[verifier::external_body]
pub(crate) fn argon2_hash(password: &str) -> (r: Option<String>)
    ensures
        r matches Some(h) ==> spec_argon2_check(h@, password@) == PasswordCheck::Match,
        byte_len(password@) <= u32::MAX ==> r is Some,
{
    let salt = argon2::password_hash::SaltString::generate(&mut rand::rngs::OsRng);
    argon2::Argon2::default().hash_password(password.as_bytes(), &salt).ok().map(|h| h.to_string())
}

/// Parses `password_hash` with `password_hash::PasswordHash::new` and verifies
/// `password` against it with `argon2::Argon2::default()`
/// (`PasswordVerifier::verify_password`); the outcome is a function of the two texts,
/// named `spec_argon2_check`.
#[verifier::external_body]
pub(crate) fn argon2_check(password_hash: &str, password: &str) -> (r: PasswordCheck)
    ensures
        r == spec_argon2_check(password_hash@, password@),
{
    match argon2::password_hash::PasswordHash::new(password_hash) {
        Err(_) => PasswordCheck::Malformed,
        Ok(parsed) => match argon2::Argon2::default().verify_password(password.as_bytes(), &parsed) {
            Ok(()) => PasswordCheck::Match,
            Err(argon2::password_hash::Error::Password) => PasswordCheck::Mismatch,
            Err(_) => PasswordCheck::Failed,
        },
    }
}

/// Hashes a password for storage.
pub fn hash_password(password: &str) -> (r: Result<String, AuthError>)
    ensures
        r matches Ok(h) ==> spec_argon2_check(h@, password@) == PasswordCheck::Match,
        r is Err ==> r matches Err(AuthError::PasswordHash),
        byte_len(password@) <= u32::MAX ==> r is Ok,
{
    match argon2_hash(password) {
        Some(h) => Ok(h),
        None => Err(AuthError::PasswordHash),
    }
}

/// What a password check means for a login: a match lets the user in, a mismatch
/// is a credentials failure, anything else is a hashing failure.
pub open spec fn spec_check_outcome(c: PasswordCheck) -> Result<(), AuthError> {
    match c {
        PasswordCheck::Match => Ok(()),
        PasswordCheck::Mismatch => Err(AuthError::InvalidCredentials),
        _ => Err(AuthError::PasswordHash),
    }
}

/// The outcome of a login for a password check.
pub fn password_check_outcome(c: PasswordCheck) -> (r: Result<(), AuthError>)
    ensures
        r == spec_check_outcome(c),
{
    match c {
        PasswordCheck::Match => Ok(()),
        PasswordCheck::Mismatch => Err(AuthError::InvalidCredentials),
        _ => Err(AuthError::PasswordHash),
    }
}

/// Checks `password` against the stored hash.
pub fn verify_password(password_hash: &str, password: &str) -> (r: Result<(), AuthError>)
    ensures
        r == spec_check_outcome(spec_argon2_check(password_hash@, password@)),
{
    password_check_outcome(argon2_check(password_hash, password))
}

// ---------------------------------------------------------------------------
// Session tokens
// ---------------------------------------------------------------------------

/// Whether `c` belongs to the URL-safe Base64 alphabet.
pub open spec fn base64_url_char(c: char) -> bool {
    crate::text::is_ascii_alnum(c) || c == '-' || c == '_'
}

/// The character of the URL-safe Base64 alphabet for a six-bit value `v`
/// (`A`-`Z`, `a`-`z`, `0`-`9`, `-`, `_`).
pub open spec fn base64_url_digit(v: int) -> char {
    if v < 26 {
        (v + 65) as char
    } else if v < 52 {
        (v + 71) as char
    } else if v < 62 {
        (v - 4) as char
    } else if v == 62 {
        '-'
    } else {
        '_'
    }
}

/// The URL-safe Base64 text of `bytes`, without padding: each group of three bytes
/// gives four characters, and a last group of one or two bytes gives two or three.
pub open spec fn spec_base64_url_nopad(b: Seq<u8>) -> Seq<char>
    decreases b.len(),
{
    if b.len() == 0 {
        Seq::empty()
    } else if b.len() == 1 {
        seq![base64_url_digit(b[0] as int / 4), base64_url_digit((b[0] as int % 4) * 16)]
    } else if b.len() == 2 {
        seq![
            base64_url_digit(b[0] as int / 4),
            base64_url_digit((b[0] as int % 4) * 16 + b[1] as int / 16),
            base64_url_digit((b[1] as int % 16) * 4),
        ]
    } else {
        seq![
            base64_url_digit(b[0] as int / 4),
            base64_url_digit((b[0] as int % 4) * 16 + b[1] as int / 16),
            base64_url_digit((b[1] as int % 16) * 4 + b[2] as int / 64),
            base64_url_digit(b[2] as int % 64),
        ] + spec_base64_url_nopad(b.skip(3))
    }
}

proof fn lemma_base64_digit(v: int)
    requires
        0 <= v < 64,
    ensures
        base64_url_char(base64_url_digit(v)),
{
}

/// The Base64 text has `(4n + 2) / 3` characters for `n` bytes, all of the URL-safe
/// alphabet.
pub proof fn lemma_base64_url_nopad(b: Seq<u8>)
    ensures
        spec_base64_url_nopad(b).len() == (4 * b.len() + 2) / 3,
        forall|i: int|
            0 <= i < spec_base64_url_nopad(b).len() ==> base64_url_char(
                #[trigger] spec_base64_url_nopad(b)[i],
            ),
    decreases b.len(),
{
    if b.len() == 0 {
    } else if b.len() <= 2 {
        lemma_base64_digit(b[0] as int / 4);
        lemma_base64_digit((b[0] as int % 4) * 16);
        if b.len() == 2 {
            lemma_base64_digit((b[0] as int % 4) * 16 + b[1] as int / 16);
            lemma_base64_digit((b[1] as int % 16) * 4);
        }
    } else {
        lemma_base64_url_nopad(b.skip(3));
        lemma_base64_digit(b[0] as int / 4);
        lemma_base64_digit((b[0] as int % 4) * 16 + b[1] as int / 16);
        lemma_base64_digit((b[1] as int % 16) * 4 + b[2] as int / 64);
        lemma_base64_digit(b[2] as int % 64);
        let head = seq![
            base64_url_digit(b[0] as int / 4),
            base64_url_digit((b[0] as int % 4) * 16 + b[1] as int / 16),
            base64_url_digit((b[1] as int % 16) * 4 + b[2] as int / 64),
            base64_url_digit(b[2] as int % 64),
        ];
        let tail = spec_base64_url_nopad(b.skip(3));
        assert(spec_base64_url_nopad(b) == head + tail);
        assert forall|i: int| 0 <= i < (head + tail).len() implies base64_url_char(#[trigger] (head + tail)[i]) by {
            if i >= 4 {
                assert((head + tail)[i] == tail[i - 4]);
            }
        }
    }
}

/// Encodes `bytes` with `base64::engine::general_purpose::URL_SAFE_NO_PAD`
/// (`Engine::encode`): the standard Base64 encoding with the URL-safe alphabet and
/// no padding, as `spec_base64_url_nopad` writes it out.
#[verifier::external_body]
fn base64_url_nopad(bytes: &[u8]) -> (r: String)
    ensures
        r@ == spec_base64_url_nopad(bytes@),
{
    base64::engine::general_purpose::URL_SAFE_NO_PAD.encode(bytes)
}

/// Fills 32 bytes from the operating system's generator (`rand::rngs::OsRng`,
/// `RngCore::fill_bytes`). Only the length is claimed.
#[verifier::external_body]
fn os_random_32() -> (r: Vec<u8>)
    ensures
        r@.len() == 32,
{
    let mut bytes = [0u8; 32];
    rand::rngs::OsRng.fill_bytes(&mut bytes);
    bytes.to_vec()
}

/// A new random session token: 32 random bytes as unpadded URL-safe Base64.
pub fn generate_session_token() -> (r: String)
    ensures
        r@.len() == 43,
        forall|i: int| 0 <= i < r@.len() ==> base64_url_char(#[trigger] r@[i]),
        exists|b: Seq<u8>| b.len() == 32 && r@ == spec_base64_url_nopad(b),
{
    let bytes = os_random_32();
    let r = base64_url_nopad(bytes.as_slice());
    proof {
        lemma_base64_url_nopad(bytes@);
    }
    r
}

/// The SHA-256 digest of `data`.
pub uninterp spec fn spec_sha256(data: Seq<u8>) -> Seq<u8>;

/// Computes `sha2::Sha256::digest`. Claimed besides the name: the digest has 32 bytes.
#[verifier::external_body]
fn sha256(data: &[u8]) -> (r: Vec<u8>)
    ensures
        r@ == spec_sha256(data@),
        r@.len() == 32,
{
    sha2::Sha256::digest(data).to_vec()
}

/// The stored form of a session token: the lowercase hexadecimal SHA-256 digest of
/// its UTF-8 bytes.
pub open spec fn spec_hash_token(token: Seq<char>) -> Seq<char> {
    hex_lower(spec_sha256(vstd::utf8::encode_utf8(token)))
}

/// Hashes a session token for storage and lookup.
pub fn hash_token(token: &str) -> (r: String)
    ensures
        r@ == spec_hash_token(token@),
        r@.len() == 64,
{
    let digest = sha256(token.as_bytes());
    let r = to_hex_lower(digest.as_slice());
    proof {
        crate::numbers::lemma_hex_lower_len(digest@);
    }
    r
}

/// The current time as a Unix timestamp: one that falls within a real UTC day.
pub fn now_unix() -> (r: i64)
    ensures
        crate::clock::timestamp_of_real_day(r as int),
{
    let now = crate::clock::utc_now();
    assert(crate::clock::timestamp_in_day(now.unix as int, now.year as int, now.month as int, now.day as int));
    now.unix
}

// ---------------------------------------------------------------------------
// Registration, login and sessions, around the statements to the database
// ---------------------------------------------------------------------------

/// What a registration stores for a new user.
pub struct NewAccount {
    pub username: String,
    pub password_hash: String,
    /// The creation and modification time.
    pub now: i64,
}

/// The checks and the hashing that come before storing a new user, in the order in
/// which they are made: the username, then the password, then the hash.
pub fn prepare_registration(username: &str, password: &str) -> (r: Result<NewAccount, AuthError>)
    ensures
        !username_ok(username@) ==> r matches Err(AuthError::InvalidUsername),
        username_ok(username@) && !password_ok(password@) ==> r matches Err(
            AuthError::InvalidPassword,
        ),
        username_ok(username@) && password_ok(password@) ==> (r matches Ok(a) && a.username@
            == username@ && spec_argon2_check(a.password_hash@, password@) == PasswordCheck::Match
            && crate::clock::timestamp_of_real_day(a.now as int)),
{
    validate_username(username)?;
    validate_password(password)?;
    let password_hash = hash_password(password)?;
    let now = now_unix();
    Ok(NewAccount { username: owned(username), password_hash, now })
}

/// The failure of storing a new user, from the message of the database error when
/// there is one: a violated uniqueness constraint means the name is taken.
pub fn registration_insert_error(database_message: Option<&str>) -> (r: AuthError)
    ensures
        (match database_message {
            Some(m) => has_substring(m@, "UNIQUE constraint failed"@),
            None => false,
        }) ==> r matches AuthError::UsernameTaken,
        !(match database_message {
            Some(m) => has_substring(m@, "UNIQUE constraint failed"@),
            None => false,
        }) ==> r matches AuthError::Database,
{
    match database_message {
        Some(m) => if contains(m, "UNIQUE constraint failed") {
            AuthError::UsernameTaken
        } else {
            AuthError::Database
        },
        None => AuthError::Database,
    }
}

/// The stored account that a login looks up by name, with each column as it could be
/// read (`None` where it could not).
pub struct StoredCredentials {
    pub id: Option<i64>,
    pub username: Option<String>,
    pub password_hash: String,
}

/// Judges a login from the account found under the name (if any) and the password:
/// no account, or a password that does not match, are a credentials failure.
pub fn check_credentials(row: Option<StoredCredentials>, password: &str) -> (r: Result<AuthUser, AuthError>)
    ensures
        row is None ==> r matches Err(AuthError::InvalidCredentials),
        row matches Some(c) ==> {
            let outcome = spec_check_outcome(spec_argon2_check(c.password_hash@, password@));
            match outcome {
                Err(e) => r == Err::<AuthUser, AuthError>(e),
                Ok(()) => match (c.id, c.username) {
                    (Some(id), Some(name)) => r matches Ok(u) && u.id == id && u.username@ == name@,
                    _ => r matches Err(AuthError::Database),
                },
            }
        },
{
    let row = match row {
        Some(row) => row,
        None => return Err(AuthError::InvalidCredentials),
    };
    verify_password(row.password_hash.as_str(), password)?;
    match (row.id, row.username) {
        (Some(id), Some(username)) => Ok(AuthUser { id, username }),
        _ => Err(AuthError::Database),
    }
}

/// The earliest and latest Unix timestamps that a `time::OffsetDateTime` can hold.
pub const MIN_TIMESTAMP: i64 = -377705116800;

pub const MAX_TIMESTAMP: i64 = 253402300799;

/// The expiry of a session opened at `now` for `ttl_secs` seconds, the seconds taken
/// as a signed 64-bit count (so a count above `i64::MAX` wraps), when the instant is
/// one that a date-time can hold.
pub open spec fn spec_session_expiry(now: int, ttl_secs: int) -> Option<int> {
    let secs = if ttl_secs > i64::MAX { ttl_secs - 0x1_0000_0000_0000_0000 } else { ttl_secs };
    let e = now + secs;
    if MIN_TIMESTAMP <= e <= MAX_TIMESTAMP {
        Some(e)
    } else {
        None
    }
}

/// The expiry of a session.
pub fn session_expiry(now: i64, ttl_secs: u64) -> (r: Option<i64>)
    ensures
        r matches Some(e) ==> spec_session_expiry(now as int, ttl_secs as int) == Some(e as int),
        r is None ==> spec_session_expiry(now as int, ttl_secs as int) is None,
{
    let secs: i128 = if ttl_secs > i64::MAX as u64 {
        ttl_secs as i128 - 0x1_0000_0000_0000_0000i128
    } else {
        ttl_secs as i128
    };
    let e: i128 = now as i128 + secs;
    if MIN_TIMESTAMP as i128 <= e && e <= MAX_TIMESTAMP as i128 {
        Some(e as i64)
    } else {
        None
    }
}

/// What opening a session stores, and the token handed to the client.
pub struct NewSession {
    pub token: String,
    pub token_hash: String,
    pub now: i64,
    pub expires_at: i64,
}

/// Opens a session of `ttl_secs` seconds: a new random token, its hash, and the
/// times. `None` where the expiry lies beyond what a date-time can hold.
pub fn new_session(ttl_secs: u64) -> (r: Option<NewSession>)
    ensures
        r matches Some(s) ==> {
            &&& s.token@.len() == 43
            &&& (forall|i: int| 0 <= i < s.token@.len() ==> base64_url_char(#[trigger] s.token@[i]))
            &&& (exists|b: Seq<u8>| b.len() == 32 && s.token@ == spec_base64_url_nopad(b))
            &&& s.token_hash@ == spec_hash_token(s.token@)
            &&& crate::clock::timestamp_of_real_day(s.now as int)
            &&& spec_session_expiry(s.now as int, ttl_secs as int) == Some(s.expires_at as int)
        },
        r is None ==> exists|now: i64|
            crate::clock::timestamp_of_real_day(now as int) && #[trigger] spec_session_expiry(
                now as int,
                ttl_secs as int,
            ) is None,
{
    let token = generate_session_token();
    let token_hash = hash_token(token.as_str());
    let now = now_unix();
    match session_expiry(now, ttl_secs) {
        Some(expires_at) => Some(NewSession { token, token_hash, now, expires_at }),
        None => None,
    }
}

/// What looking up or revoking a session by its token compares with: the token's
/// hash, and the current time.
pub struct SessionLookup {
    pub token_hash: String,
    pub now: i64,
}

/// The values with which a session is looked up or revoked.
pub fn session_lookup(token: &str) -> (r: SessionLookup)
    ensures
        r.token_hash@ == spec_hash_token(token@),
        crate::clock::timestamp_of_real_day(r.now as int),
{
    SessionLookup { token_hash: hash_token(token), now: now_unix() }
}

/// A session opened by `new_session` is found again by `session_lookup` with its
/// token: the hash that the lookup compares with is the hash that was stored.
pub proof fn law_session_token_round_trip(s: NewSession, l: SessionLookup, token: Seq<char>)
    requires
        s.token_hash@ == spec_hash_token(s.token@),
        l.token_hash@ == spec_hash_token(token),
        token == s.token@,
    ensures
        l.token_hash@ == s.token_hash@,
{
}

/// A password accepted at registration lets its owner in: the stored hash checks
/// out against the same password. A password that the hash does not match is
/// refused as bad credentials, and a stored text that is no hash is a hashing
/// failure, not a refusal.
pub proof fn law_registered_password_verifies(a: NewAccount, password: Seq<char>, other: Seq<char>)
    requires
        spec_argon2_check(a.password_hash@, password) == PasswordCheck::Match,
    ensures
        spec_check_outcome(spec_argon2_check(a.password_hash@, password)) == Ok::<(), AuthError>(()),
        spec_argon2_check(a.password_hash@, other) == PasswordCheck::Mismatch ==> spec_check_outcome(
            spec_argon2_check(a.password_hash@, other),
        ) == Err::<(), AuthError>(AuthError::InvalidCredentials),
        spec_argon2_check(a.password_hash@, other) == PasswordCheck::Malformed ==> spec_check_outcome(
            spec_argon2_check(a.password_hash@, other),
        ) == Err::<(), AuthError>(AuthError::PasswordHash),
{
}

} // verus!

use base64::Engine;
use gangrennes::api::auth::handlers::{login_failure, redirect_home_auth_error, register_failure};
use gangrennes::api::auth::services::{
    check_credentials, generate_session_token, hash_password, hash_token, new_session,
    password_check_outcome, prepare_registration, registration_insert_error, session_expiry,
    session_lookup, validate_password, validate_username, verify_password, AuthError,
    PasswordCheck, StoredCredentials, SESSION_COOKIE, MAX_TIMESTAMP,
};
use gangrennes::error::AppError;

#[test]
fn usernames() {
    assert!(validate_username("alice_01-x").is_ok());
    assert!(matches!(validate_username("al"), Err(AuthError::InvalidUsername)));
    assert!(matches!(validate_username(&"a".repeat(33)), Err(AuthError::InvalidUsername)));
    assert!(validate_username(&"a".repeat(32)).is_ok());
    assert!(matches!(validate_username("bad name"), Err(AuthError::InvalidUsername)));
    assert!(matches!(validate_username("élan"), Err(AuthError::InvalidUsername)));
}

#[test]
fn passwords() {
    assert!(validate_password("12345678").is_ok());
    assert!(matches!(validate_password("1234567"), Err(AuthError::InvalidPassword)));
    assert!(validate_password(&"p".repeat(128)).is_ok());
    assert!(matches!(validate_password(&"p".repeat(129)), Err(AuthError::InvalidPassword)));
}

#[test]
fn a_hashed_password_verifies() {
    let h = hash_password("correct horse").ok().unwrap();
    assert!(h.starts_with("$argon2"));
    assert!(verify_password(&h, "correct horse").is_ok());
    assert!(matches!(verify_password(&h, "wrong horse"), Err(AuthError::InvalidCredentials)));
    assert!(matches!(verify_password("not a hash", "x"), Err(AuthError::PasswordHash)));
}

#[test]
fn check_outcomes() {
    assert!(password_check_outcome(PasswordCheck::Match).is_ok());
    assert!(matches!(password_check_outcome(PasswordCheck::Mismatch), Err(AuthError::InvalidCredentials)));
    assert!(matches!(password_check_outcome(PasswordCheck::Failed), Err(AuthError::PasswordHash)));
    assert!(matches!(password_check_outcome(PasswordCheck::Malformed), Err(AuthError::PasswordHash)));
}

#[test]
fn registration_and_login() {
    assert!(matches!(prepare_registration("x", "password1"), Err(AuthError::InvalidUsername)));
    assert!(matches!(prepare_registration("alice", "short"), Err(AuthError::InvalidPassword)));
    let account = prepare_registration("alice", "password1").ok().unwrap();
    assert_eq!(account.username, "alice");
    let row = StoredCredentials { id: Some(4), username: Some("alice".to_string()), password_hash: account.password_hash.clone() };
    let user = check_credentials(Some(row), "password1").ok().unwrap();
    assert_eq!((user.id, user.username.as_str()), (4, "alice"));
    let row = StoredCredentials { id: Some(4), username: Some("alice".to_string()), password_hash: account.password_hash.clone() };
    assert!(matches!(check_credentials(Some(row), "password2"), Err(AuthError::InvalidCredentials)));
    assert!(matches!(check_credentials(None, "password1"), Err(AuthError::InvalidCredentials)));
    let broken = StoredCredentials { id: None, username: Some("alice".to_string()), password_hash: account.password_hash };
    assert!(matches!(check_credentials(Some(broken), "password1"), Err(AuthError::Database)));
}

#[test]
fn insert_failures() {
    assert!(matches!(registration_insert_error(Some("UNIQUE constraint failed: users.username")), AuthError::UsernameTaken));
    assert!(matches!(registration_insert_error(Some("disk I/O error")), AuthError::Database));
    assert!(matches!(registration_insert_error(None), AuthError::Database));
}

#[test]
fn session_tokens() {
    let a = generate_session_token();
    let b = generate_session_token();
    assert_eq!(a.len(), 43);
    assert!(a.chars().all(|c| c.is_ascii_alphanumeric() || c == '-' || c == '_'));
    assert_ne!(a, b);
    assert_eq!(hash_token(""), "e3b0c44298fc1c149afbf4c8996fb92427ae41e4649b934ca495991b7852b855");
    assert_eq!(hash_token("abc"), "ba7816bf8f01cfea414140de5dae2223b00361a396177a9cb410ff61f20015ad");
    assert_eq!(SESSION_COOKIE, "lg_session");
}

#[test]
fn sessions_are_found_by_their_token() {
    let s = new_session(86_400).unwrap();
    assert_eq!(s.expires_at, s.now + 86_400);
    assert_eq!(session_lookup(&s.token).token_hash, s.token_hash);
    assert_eq!(session_expiry(100, 50), Some(150));
    assert_eq!(session_expiry(0, u64::MAX), Some(-1));
    assert_eq!(session_expiry(MAX_TIMESTAMP, 1), None);
}

#[test]
fn failed_logins_and_registrations() {
    assert_eq!(redirect_home_auth_error("login", "x"), "/?auth=login&err=x");
    assert_eq!(login_failure(AuthError::InvalidUsername).ok().unwrap(), "/?auth=login&err=invalid_credentials");
    assert_eq!(login_failure(AuthError::InvalidCredentials).ok().unwrap(), "/?auth=login&err=invalid_credentials");
    assert!(matches!(login_failure(AuthError::Database), Err(AppError::Database)));
    assert!(matches!(login_failure(AuthError::PasswordHash), Err(AppError::Internal)));
    assert_eq!(register_failure(AuthError::UsernameTaken).ok().unwrap(), "/?auth=register&err=username_taken");
    assert_eq!(register_failure(AuthError::InvalidPassword).ok().unwrap(), "/?auth=register&err=invalid_password");
    assert_eq!(register_failure(AuthError::InvalidUsername).ok().unwrap(), "/?auth=register&err=invalid_username");
    assert_eq!(register_failure(AuthError::InvalidCredentials).ok().unwrap(), "/?auth=register&err=registration_failed");
    assert!(matches!(register_failure(AuthError::Database), Err(AppError::Database)));
}

#[test]
fn error_messages() {
    assert_eq!(AuthError::UsernameTaken.message(), "username already exists");
    assert_eq!(AuthError::InvalidPassword.message(), "password must be at least 8 characters");
}

#[test]
fn now_unix_reads_the_system_clock() {
    let before = std::time::SystemTime::now().duration_since(std::time::UNIX_EPOCH).unwrap().as_secs() as i64;
    let now = gangrennes::api::auth::services::now_unix();
    let after = std::time::SystemTime::now().duration_since(std::time::UNIX_EPOCH).unwrap().as_secs() as i64;
    assert!(before <= now && now <= after);
}

#[test]
fn session_tokens_are_base64_of_32_bytes() {
    let token = generate_session_token();
    let bytes = base64::engine::general_purpose::URL_SAFE_NO_PAD.decode(token.as_bytes()).unwrap();
    assert_eq!(bytes.len(), 32);
    assert_eq!(base64::engine::general_purpose::URL_SAFE_NO_PAD.encode(&bytes), token);
    let s = new_session(60).unwrap();
    let bytes = base64::engine::general_purpose::URL_SAFE_NO_PAD.decode(s.token.as_bytes()).unwrap();
    assert_eq!(bytes.len(), 32);
    assert_eq!(s.expires_at, s.now + 60);
}

#[test]
fn sessions_are_looked_up_at_the_current_time() {
    let before = std::time::SystemTime::now().duration_since(std::time::UNIX_EPOCH).unwrap().as_secs() as i64;
    let l = session_lookup("token");
    let after = std::time::SystemTime::now().duration_since(std::time::UNIX_EPOCH).unwrap().as_secs() as i64;
    assert!(before <= l.now && l.now <= after);
}

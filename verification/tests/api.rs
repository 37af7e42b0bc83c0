use gangrennes::config::app_config::{cookie_secure_from, session_ttl_seconds_from};
use gangrennes::config::db_config::DbConfig;
use gangrennes::config::{
    env_or_default, env_required, parse_env_i64_or_default, parse_env_u16_or_default,
    parse_env_u32_or_default, AppConfig, EnvValues,
};
use gangrennes::controllers::auth_controller::{login_name, login_user, registration};
use gangrennes::controllers::item_controller::{
    creation_check, deletion_outcome, found_item, item_not_found, reloaded_item,
};
use gangrennes::db::item_repository::new_item;
use gangrennes::db::pool::database_path;
use gangrennes::db::sqlite::sqlite_parent_dir;
use gangrennes::db::user_repository::{
    is_unique_name_violation, new_user_id, reloaded_user, user_insert_failure, DatabaseErrorInfo,
};
use gangrennes::models::item::{CreateItemRequest, Item};
use gangrennes::models::user::{
    validate_password, validate_user_name, LoginRequest, RegisterRequest, User, UserWithPassword,
};
use gangrennes::utils::auth::{hash_password, issue_jwt_claims, jwt_claims, verify_password};
use gangrennes::utils::error::AppError;
use gangrennes::{cors_origin, CorsOrigin};

const SECRET: &str = "0123456789abcdef0123456789abcdef";

fn env() -> EnvValues {
    EnvValues {
        host: None,
        port: None,
        database_url: None,
        max_db_connections: None,
        allowed_origin: None,
        jwt_secret: Some(SECRET.to_string()),
        jwt_expiration_minutes: None,
    }
}

fn config_message(r: Result<AppConfig, AppError>) -> String {
    match r {
        Err(AppError::Config(m)) => m,
        _ => panic!("expected a configuration failure"),
    }
}

fn is_uuid_v4(s: &str) -> bool {
    s.len() == 36
        && s.chars().enumerate().all(|(i, c)| {
            if [8, 13, 18, 23].contains(&i) {
                c == '-'
            } else {
                c.is_ascii_digit() || ('a'..='f').contains(&c)
            }
        })
        && s.as_bytes()[14] == b'4'
}

#[test]
fn settings_take_their_defaults() {
    let c = AppConfig::from_env_values(env()).unwrap();
    assert_eq!(c.host, "0.0.0.0");
    assert_eq!(c.port, 3000);
    assert_eq!(c.database_url, "sqlite://./data/app.db?mode=rwc");
    assert_eq!(c.max_db_connections, 5);
    assert_eq!(c.allowed_origin, "*");
    assert_eq!(c.jwt_secret, SECRET);
    assert_eq!(c.jwt_expiration_minutes, 60);
    assert_eq!(c.bind_address(), "0.0.0.0:3000");
}

#[test]
fn settings_take_the_given_values() {
    let mut e = env();
    e.host = Some("127.0.0.1".to_string());
    e.port = Some("8080".to_string());
    e.max_db_connections = Some("12".to_string());
    e.allowed_origin = Some("https://example.org".to_string());
    e.jwt_expiration_minutes = Some("15".to_string());
    let c = AppConfig::from_env_values(e).unwrap();
    assert_eq!(c.bind_address(), "127.0.0.1:8080");
    assert_eq!(c.max_db_connections, 12);
    assert_eq!(c.jwt_expiration_minutes, 15);
    assert_eq!(c.allowed_origin, "https://example.org");
}

#[test]
fn each_setting_failure_has_its_message() {
    let mut e = env();
    e.port = Some("70000".to_string());
    assert_eq!(config_message(AppConfig::from_env_values(e)), "environment variable PORT has an invalid value");

    let mut e = env();
    e.max_db_connections = Some("-1".to_string());
    assert_eq!(
        config_message(AppConfig::from_env_values(e)),
        "environment variable MAX_DB_CONNECTIONS has an invalid value"
    );

    let mut e = env();
    e.jwt_secret = None;
    assert_eq!(config_message(AppConfig::from_env_values(e)), "missing required environment variable JWT_SECRET");

    let mut e = env();
    e.jwt_expiration_minutes = Some("soon".to_string());
    assert_eq!(
        config_message(AppConfig::from_env_values(e)),
        "environment variable JWT_EXPIRATION_MINUTES has an invalid value"
    );

    let mut e = env();
    e.jwt_secret = Some("short".to_string());
    assert_eq!(config_message(AppConfig::from_env_values(e)), "JWT_SECRET must be at least 32 characters");

    let mut e = env();
    e.jwt_expiration_minutes = Some("0".to_string());
    assert_eq!(config_message(AppConfig::from_env_values(e)), "JWT_EXPIRATION_MINUTES must be a positive integer");

    let mut e = env();
    e.port = Some("x".to_string());
    e.jwt_secret = None;
    assert_eq!(config_message(AppConfig::from_env_values(e)), "environment variable PORT has an invalid value");
}

#[test]
fn single_variables_are_read() {
    assert_eq!(env_or_default(Some("a".to_string()), "b"), "a");
    assert_eq!(env_or_default(None, "b"), "b");
    assert_eq!(env_required("K", Some("v".to_string())).unwrap(), "v");
    match env_required("K", None) {
        Err(AppError::Config(m)) => assert_eq!(m, "missing required environment variable K"),
        _ => panic!("expected a failure"),
    }
    assert_eq!(parse_env_u16_or_default("P", None, 7).unwrap(), 7);
    assert_eq!(parse_env_u16_or_default("P", Some("65535".to_string()), 7).unwrap(), 65535);
    assert!(parse_env_u16_or_default("P", Some("65536".to_string()), 7).is_err());
    assert_eq!(parse_env_u32_or_default("P", Some("+4".to_string()), 7).unwrap(), 4);
    assert_eq!(parse_env_i64_or_default("P", Some("-20".to_string()), 7).unwrap(), -20);
    match parse_env_i64_or_default("X", Some(" 1".to_string()), 7) {
        Err(AppError::Config(m)) => assert_eq!(m, "environment variable X has an invalid value"),
        _ => panic!("expected a failure"),
    }
}

#[test]
fn page_settings_are_read() {
    for v in ["1", "true", "TRUE", "Yes", "on"] {
        assert!(cookie_secure_from(Some(v)));
    }
    for v in ["0", "false", "no", "", "y"] {
        assert!(!cookie_secure_from(Some(v)));
    }
    assert!(!cookie_secure_from(None));
    assert_eq!(session_ttl_seconds_from(Some("3600")), 3600);
    assert_eq!(session_ttl_seconds_from(Some("-1")), 86400);
    assert_eq!(session_ttl_seconds_from(None), 86400);
    assert_eq!(DbConfig::from_value(None).database_url, "sqlite://data/gangrennes.sqlite3");
    assert_eq!(DbConfig::from_value(Some("sqlite://x.db".to_string())).database_url, "sqlite://x.db");
}

#[test]
fn database_locations() {
    assert_eq!(database_path("sqlite://data/app.db"), Some("data/app.db".to_string()));
    assert_eq!(database_path("sqlite://"), None);
    assert_eq!(database_path("postgres://x"), None);
    assert_eq!(sqlite_parent_dir("sqlite://./data/app.db?mode=rwc").unwrap(), Some("./data".to_string()));
    assert_eq!(sqlite_parent_dir("sqlite://app.db").unwrap(), None);
    assert_eq!(sqlite_parent_dir("sqlite://:memory:").unwrap(), None);
    assert_eq!(sqlite_parent_dir("sqlite://file:x.db").unwrap(), None);
    assert_eq!(sqlite_parent_dir("postgres://host/db").unwrap(), None);
    match sqlite_parent_dir("sqlite:///") {
        Err(AppError::Config(m)) => assert_eq!(m, "DATABASE_URL does not include a parent directory"),
        _ => panic!("expected a failure"),
    }
}

#[test]
fn unique_name_violations_are_recognised() {
    let by_code = DatabaseErrorInfo { code: Some("2067".to_string()), message: String::new() };
    let by_message = DatabaseErrorInfo {
        code: None,
        message: "UNIQUE constraint failed: users.name".to_string(),
    };
    let other = DatabaseErrorInfo { code: Some("1".to_string()), message: "disk full".to_string() };
    assert!(is_unique_name_violation(Some(&by_code)));
    assert!(is_unique_name_violation(Some(&by_message)));
    assert!(!is_unique_name_violation(Some(&other)));
    assert!(!is_unique_name_violation(None));
}

#[test]
fn new_ids_are_uuids() {
    let a = new_user_id();
    let b = new_user_id();
    assert!(is_uuid_v4(&a));
    assert!(is_uuid_v4(&b));
    assert_ne!(a, b);
    let item = new_item(&CreateItemRequest { name: "  pen ".to_string(), description: Some("   ".to_string()) });
    assert!(is_uuid_v4(&item.id));
    assert_eq!(item.name, "pen");
    assert_eq!(item.description, None);
}

#[test]
fn item_requests_are_checked() {
    let ok = CreateItemRequest { name: " book ".to_string(), description: Some(" a novel ".to_string()) };
    assert_eq!(ok.validate(), Ok(()));
    assert_eq!(ok.sanitized_name(), "book");
    assert_eq!(ok.sanitized_description(), Some("a novel".to_string()));
    let blank = CreateItemRequest { name: "   ".to_string(), description: None };
    assert_eq!(blank.validate(), Err("name is required".to_string()));
    let long = CreateItemRequest { name: "x".repeat(121), description: None };
    assert_eq!(long.validate(), Err("name must be 120 characters or less".to_string()));
    let exact = CreateItemRequest { name: "x".repeat(120), description: Some("d".repeat(1000)) };
    assert_eq!(exact.validate(), Ok(()));
    let wordy = CreateItemRequest { name: "x".to_string(), description: Some("d".repeat(1001)) };
    assert_eq!(wordy.validate(), Err("description must be 1000 characters or less".to_string()));
    match creation_check(&wordy) {
        Err(AppError::Validation(m)) => assert_eq!(m, "description must be 1000 characters or less"),
        _ => panic!("expected a validation failure"),
    }
    assert!(creation_check(&ok).is_ok());
}

#[test]
fn user_requests_are_checked() {
    assert_eq!(validate_user_name(" "), Err("name is required".to_string()));
    assert_eq!(validate_user_name(&"n".repeat(81)), Err("name must be 80 characters or less".to_string()));
    assert_eq!(validate_user_name(&"n".repeat(80)), Ok(()));
    assert_eq!(validate_password("short"), Err("password must be at least 12 characters".to_string()));
    assert_eq!(validate_password(&"p".repeat(257)), Err("password must be 256 characters or less".to_string()));
    assert_eq!(validate_password(&"p".repeat(12)), Ok(()));
    let reg = RegisterRequest { name: " ann ".to_string(), password: "tiny".to_string() };
    assert_eq!(reg.validate(), Err("password must be at least 12 characters".to_string()));
    assert_eq!(reg.sanitized_name(), "ann");
    let login = LoginRequest { name: "ann".to_string(), password: String::new() };
    assert_eq!(login.validate(), Err("password is required".to_string()));
    let login = LoginRequest { name: "".to_string(), password: String::new() };
    assert_eq!(login.validate(), Err("name is required".to_string()));
    match login_name(&LoginRequest { name: " ann ".to_string(), password: "x".to_string() }) {
        Ok(n) => assert_eq!(n, "ann"),
        Err(_) => panic!("expected a name"),
    }
    match registration(&RegisterRequest { name: "ann".to_string(), password: "short".to_string() }) {
        Err(AppError::Validation(m)) => assert_eq!(m, "password must be at least 12 characters"),
        _ => panic!("expected a validation failure"),
    }
}

#[test]
fn registered_users_log_in_with_their_password() {
    let reg = registration(&RegisterRequest { name: " ann ".to_string(), password: "correct horse".to_string() })
        .ok()
        .expect("registration succeeds");
    assert_eq!(reg.name, "ann");
    assert!(verify_password("correct horse", &reg.password_hash).unwrap());
    assert!(!verify_password("wrong horse!!", &reg.password_hash).unwrap());
    let stored = UserWithPassword {
        id: "u1".to_string(),
        name: "ann".to_string(),
        password_hash: reg.password_hash.clone(),
        creation_date: "c".to_string(),
        modification_date: "m".to_string(),
    };
    let user: User = login_user(Some(stored.clone()), "correct horse").ok().expect("login succeeds");
    assert_eq!(user.id, "u1");
    assert_eq!(user.name, "ann");
    match login_user(Some(stored), "wrong horse!!") {
        Err(AppError::Unauthorized(m)) => assert_eq!(m, "invalid credentials"),
        _ => panic!("expected a refusal"),
    }
    match login_user(None, "correct horse") {
        Err(AppError::Unauthorized(m)) => assert_eq!(m, "invalid credentials"),
        _ => panic!("expected a refusal"),
    }
    let malformed = UserWithPassword {
        id: "u2".to_string(),
        name: "bob".to_string(),
        password_hash: "not a hash".to_string(),
        creation_date: String::new(),
        modification_date: String::new(),
    };
    match login_user(Some(malformed), "whatever") {
        Err(AppError::Internal(m)) => assert_eq!(m, "stored password hash is invalid"),
        _ => panic!("expected an internal failure"),
    }
    let h = hash_password("another secret").ok().expect("hashing succeeds");
    assert!(h.starts_with("$argon2"));
}

#[test]
fn token_claims_expire_after_the_configured_minutes() {
    let c = jwt_claims("u1", "ann", 1_000, 60).ok().expect("claims");
    assert_eq!(c.sub, "u1");
    assert_eq!(c.name, "ann");
    assert_eq!(c.iat, 1_000);
    assert_eq!(c.exp, 4_600);
    match jwt_claims("u1", "ann", i64::MAX - 10, 1) {
        Err(AppError::Internal(m)) => assert_eq!(m, "invalid jwt expiration configuration"),
        _ => panic!("expected a failure"),
    }
    let c = jwt_claims("u1", "ann", 0, i64::MAX).ok().expect("claims");
    assert_eq!(c.exp, i64::MAX as usize);
    let c = issue_jwt_claims("u1", "ann", 2).ok().expect("claims");
    assert_eq!(c.exp - c.iat, 120);
}

#[test]
fn item_outcomes() {
    let item = Item { id: "i1".to_string(), name: "n".to_string(), description: None, created_at: "t".to_string() };
    assert_eq!(found_item("i1", Some(item.clone())).ok().map(|i| i.id), Some("i1".to_string()));
    match found_item("i9", None) {
        Err(AppError::NotFound(m)) => assert_eq!(m, "item i9 was not found"),
        _ => panic!("expected not found"),
    }
    match item_not_found("x") {
        AppError::NotFound(m) => assert_eq!(m, "item x was not found"),
        _ => panic!("expected not found"),
    }
    assert!(deletion_outcome("i1", true).is_ok());
    assert!(matches!(deletion_outcome("i1", false), Err(AppError::NotFound(_))));
    assert!(reloaded_item(Some(item)).is_ok());
    match reloaded_item(None) {
        Err(AppError::Internal(m)) => assert_eq!(m, "inserted item could not be reloaded"),
        _ => panic!("expected an internal failure"),
    }
}

#[test]
fn errors_answer_with_status_and_code() {
    let cases = vec![
        (AppError::NotFound("m".to_string()), 404, "not_found", "m"),
        (AppError::Conflict("m".to_string()), 409, "conflict", "m"),
        (AppError::Unauthorized("m".to_string()), 401, "unauthorized", "m"),
        (AppError::Validation("m".to_string()), 400, "validation_error", "m"),
        (AppError::Config("m".to_string()), 500, "config_error", "m"),
        (AppError::Internal("secret detail".to_string()), 500, "internal_error", "internal server error"),
        (AppError::Database, 500, "database_error", "database operation failed"),
        (AppError::Migration, 500, "migration_error", "database migration failed"),
        (AppError::Io, 500, "io_error", "i/o operation failed"),
    ];
    for (e, status, code, message) in cases {
        let r = e.error_response();
        assert_eq!(r.status, status);
        assert_eq!(r.error, code);
        assert_eq!(r.message, message);
    }
}

#[test]
fn cors_origins() {
    assert!(matches!(cors_origin("*"), Ok(CorsOrigin::Any)));
    match cors_origin("https://a.b") {
        Ok(CorsOrigin::Exact(o)) => assert_eq!(o, "https://a.b"),
        _ => panic!("expected an exact origin"),
    }
    match cors_origin("https://caf\u{e9}.example\tx") {
        Ok(CorsOrigin::Exact(o)) => assert_eq!(o, "https://caf\u{e9}.example\tx"),
        _ => panic!("expected an exact origin"),
    }
    for bad in ["https://a.b\n", "x\u{7f}", "\u{0}"] {
        match cors_origin(bad) {
            Err(AppError::Config(m)) => assert_eq!(m, "ALLOWED_ORIGIN is not a valid header value"),
            _ => panic!("expected a refusal"),
        }
    }
}

#[test]
fn failed_user_insertions_are_told_apart() {
    let taken = DatabaseErrorInfo { code: Some("2067".to_string()), message: String::new() };
    match user_insert_failure(Some(&taken)) {
        Some(AppError::Conflict(m)) => assert_eq!(m, "user name already exists"),
        _ => panic!("expected a conflict"),
    }
    let other = DatabaseErrorInfo { code: None, message: "disk I/O error".to_string() };
    assert!(user_insert_failure(Some(&other)).is_none());
    assert!(user_insert_failure(None).is_none());
    let u = User { id: "u".to_string(), name: "n".to_string(), creation_date: "c".to_string(), modification_date: "m".to_string() };
    assert_eq!(reloaded_user(Some(u)).ok().map(|u| u.id), Some("u".to_string()));
    match reloaded_user(None) {
        Err(AppError::Internal(m)) => assert_eq!(m, "created user could not be reloaded"),
        _ => panic!("expected an internal failure"),
    }
}

#[test]
fn login_and_registration_failures_carry_their_messages() {
    for (name, password, message) in [
        ("  ", "x", "name is required"),
        ("ann", "", "password is required"),
    ] {
        match login_name(&LoginRequest { name: name.to_string(), password: password.to_string() }) {
            Err(AppError::Validation(m)) => assert_eq!(m, message),
            _ => panic!("expected a validation failure"),
        }
    }
    match registration(&RegisterRequest { name: "x".repeat(81), password: "p".repeat(12) }) {
        Err(AppError::Validation(m)) => assert_eq!(m, "name must be 80 characters or less"),
        _ => panic!("expected a validation failure"),
    }
    match registration(&RegisterRequest { name: "ann".to_string(), password: "p".repeat(257) }) {
        Err(AppError::Validation(m)) => assert_eq!(m, "password must be 256 characters or less"),
        _ => panic!("expected a validation failure"),
    }
}

#[test]
fn claims_with_no_lifetime_expire_at_once() {
    let c = issue_jwt_claims("u1", "ann", 0).ok().expect("claims");
    assert_eq!(c.exp, c.iat);
}

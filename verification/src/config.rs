//! The settings of the JSON API, from the values of its environment variables.
//! Reading the environment stands outside this library; the functions here take
//! what each variable holds (`None` when it is unset or not text).
use vstd::prelude::*;
use crate::numbers::{fmt_int, format_int, parse_i64, parse_u16, parse_u32, spec_parse_in};
use crate::text::{byte_len, owned};
use crate::utils::error::{AppError, AppResult};

pub mod app_config;
pub mod db_config;

verus! {

broadcast use vstd::string::group_string_axioms;

/// The settings of the JSON API.
#[derive(Debug, Clone)]
pub struct AppConfig {
    pub host: String,
    pub port: u16,
    pub database_url: String,
    pub max_db_connections: u32,
    pub allowed_origin: String,
    pub jwt_secret: String,
    pub jwt_expiration_minutes: i64,
}

/// What the environment gives for each variable of the settings.
pub struct EnvValues {
    pub host: Option<String>,
    pub port: Option<String>,
    pub database_url: Option<String>,
    pub max_db_connections: Option<String>,
    pub allowed_origin: Option<String>,
    pub jwt_secret: Option<String>,
    pub jwt_expiration_minutes: Option<String>,
}

/// Whether `r` is a configuration failure with message `m`.
pub open spec fn is_config_err<T>(r: AppResult<T>, m: Seq<char>) -> bool {
    r matches Err(AppError::Config(s)) && s@ == m
}

/// The value of a variable, or `default` when it is unset.
pub fn env_or_default(value: Option<String>, default: &str) -> (r: String)
    ensures
        r@ == (match value {
            Some(v) => v@,
            None => default@,
        }),
{
    match value {
        Some(v) => v,
        None => owned(default),
    }
}

/// The value of a variable that must be set.
pub fn env_required(key: &str, value: Option<String>) -> (r: AppResult<String>)
    ensures
        value matches Some(v) ==> (r matches Ok(x) && x == v),
        value is None ==> is_config_err(r, "missing required environment variable "@ + key@),
{
    match value {
        Some(v) => Ok(v),
        None => {
            let mut m = owned("missing required environment variable ");
            m.append(key);
            Err(AppError::Config(m))
        },
    }
}

fn invalid_value(key: &str) -> (r: AppError)
    ensures
        r matches AppError::Config(m) && m@ == "environment variable "@ + key@ + " has an invalid value"@,
{
    let mut m = owned("environment variable ");
    m.append(key);
    m.append(" has an invalid value");
    AppError::Config(m)
}

/// What reading an integer variable gives: the default when unset, its value when it
/// reads as an integer of the range `lo..=hi`, else a failure.
pub open spec fn spec_env_int(key: Seq<char>, value: Option<Seq<char>>, default: int, signed: bool, lo: int, hi: int) -> Result<int, Seq<char>> {
    match value {
        None => Ok(default),
        Some(v) => match spec_parse_in(v, signed, lo, hi) {
            Some(n) => Ok(n),
            None => Err("environment variable "@ + key + " has an invalid value"@),
        },
    }
}

/// The value of a `u16` variable, or `default` when it is unset.
pub fn parse_env_u16_or_default(key: &str, value: Option<String>, default: u16) -> (r: AppResult<u16>)
    ensures
        match spec_env_int(key@, crate::models::item::opt_string_view(value), default as int, false, 0, u16::MAX as int) {
            Ok(n) => r == Ok::<u16, AppError>(n as u16),
            Err(m) => is_config_err(r, m),
        },
{
    match value {
        Some(v) => match parse_u16(v.as_str()) {
            Some(n) => Ok(n),
            None => Err(invalid_value(key)),
        },
        None => Ok(default),
    }
}

/// The value of a `u32` variable, or `default` when it is unset.
pub fn parse_env_u32_or_default(key: &str, value: Option<String>, default: u32) -> (r: AppResult<u32>)
    ensures
        match spec_env_int(key@, crate::models::item::opt_string_view(value), default as int, false, 0, u32::MAX as int) {
            Ok(n) => r == Ok::<u32, AppError>(n as u32),
            Err(m) => is_config_err(r, m),
        },
{
    match value {
        Some(v) => match parse_u32(v.as_str()) {
            Some(n) => Ok(n),
            None => Err(invalid_value(key)),
        },
        None => Ok(default),
    }
}

/// The value of an `i64` variable, or `default` when it is unset.
pub fn parse_env_i64_or_default(key: &str, value: Option<String>, default: i64) -> (r: AppResult<i64>)
    ensures
        match spec_env_int(key@, crate::models::item::opt_string_view(value), default as int, true, i64::MIN as int, i64::MAX as int) {
            Ok(n) => r == Ok::<i64, AppError>(n as i64),
            Err(m) => is_config_err(r, m),
        },
{
    match value {
        Some(v) => match parse_i64(v.as_str()) {
            Some(n) => Ok(n),
            None => Err(invalid_value(key)),
        },
        None => Ok(default),
    }
}

/// Whether the settings read from `env` are acceptable, and which failure comes
/// first otherwise: the port, the number of connections, the secret's presence, the
/// expiry, the secret's length (32 bytes at least), the expiry's sign.
pub open spec fn spec_config_outcome(env: EnvValues) -> Result<(), Seq<char>> {
    let port = spec_env_int("PORT"@, crate::models::item::opt_string_view(env.port), 3000, false, 0, u16::MAX as int);
    let conns = spec_env_int("MAX_DB_CONNECTIONS"@, crate::models::item::opt_string_view(env.max_db_connections), 5, false, 0, u32::MAX as int);
    let exp = spec_env_int("JWT_EXPIRATION_MINUTES"@, crate::models::item::opt_string_view(env.jwt_expiration_minutes), 60, true, i64::MIN as int, i64::MAX as int);
    if port is Err {
        Err(port->Err_0)
    } else if conns is Err {
        Err(conns->Err_0)
    } else if env.jwt_secret is None {
        Err("missing required environment variable "@ + "JWT_SECRET"@)
    } else if exp is Err {
        Err(exp->Err_0)
    } else if byte_len(env.jwt_secret->0@) < 32 {
        Err("JWT_SECRET must be at least 32 characters"@)
    } else if exp->Ok_0 <= 0 {
        Err("JWT_EXPIRATION_MINUTES must be a positive integer"@)
    } else {
        Ok(())
    }
}

impl AppConfig {
    /// The settings from the values of the environment variables `HOST`, `PORT`,
    /// `DATABASE_URL`, `MAX_DB_CONNECTIONS`, `ALLOWED_ORIGIN`, `JWT_SECRET` and
    /// `JWT_EXPIRATION_MINUTES`, with their defaults.
    pub fn from_env_values(env: EnvValues) -> (r: AppResult<Self>)
        ensures
            match spec_config_outcome(env) {
                Err(m) => is_config_err(r, m),
                Ok(()) => r matches Ok(c) && c.host@ == (match env.host {
                    Some(h) => h@,
                    None => "0.0.0.0"@,
                }) && spec_env_int("PORT"@, crate::models::item::opt_string_view(env.port), 3000, false, 0, u16::MAX as int) == Ok::<int, Seq<char>>(c.port as int)
                    && c.database_url@ == (match env.database_url {
                    Some(h) => h@,
                    None => "sqlite://./data/app.db?mode=rwc"@,
                }) && spec_env_int("MAX_DB_CONNECTIONS"@, crate::models::item::opt_string_view(env.max_db_connections), 5, false, 0, u32::MAX as int) == Ok::<int, Seq<char>>(c.max_db_connections as int)
                    && c.allowed_origin@ == (match env.allowed_origin {
                    Some(h) => h@,
                    None => "*"@,
                }) && Some(c.jwt_secret) == env.jwt_secret
                    && spec_env_int("JWT_EXPIRATION_MINUTES"@, crate::models::item::opt_string_view(env.jwt_expiration_minutes), 60, true, i64::MIN as int, i64::MAX as int) == Ok::<int, Seq<char>>(c.jwt_expiration_minutes as int)
                    && c.jwt_expiration_minutes > 0 && byte_len(c.jwt_secret@) >= 32,
            },
    {
        let EnvValues {
            host,
            port,
            database_url,
            max_db_connections,
            allowed_origin,
            jwt_secret,
            jwt_expiration_minutes,
        } = env;
        let host = env_or_default(host, "0.0.0.0");
        let port = parse_env_u16_or_default("PORT", port, 3000)?;
        let database_url = env_or_default(database_url, "sqlite://./data/app.db?mode=rwc");
        let max_db_connections = parse_env_u32_or_default("MAX_DB_CONNECTIONS", max_db_connections, 5)?;
        let allowed_origin = env_or_default(allowed_origin, "*");
        let jwt_secret = env_required("JWT_SECRET", jwt_secret)?;
        let jwt_expiration_minutes = parse_env_i64_or_default(
            "JWT_EXPIRATION_MINUTES",
            jwt_expiration_minutes,
            60,
        )?;
        if jwt_secret.as_str().as_bytes().len() < 32 {
            return Err(AppError::Config(owned("JWT_SECRET must be at least 32 characters")));
        }
        if jwt_expiration_minutes <= 0 {
            return Err(
                AppError::Config(owned("JWT_EXPIRATION_MINUTES must be a positive integer")),
            );
        }
        Ok(AppConfig {
            host,
            port,
            database_url,
            max_db_connections,
            allowed_origin,
            jwt_secret,
            jwt_expiration_minutes,
        })
    }

    /// The address to listen on, `host:port`.
    pub fn bind_address(&self) -> (r: String)
        ensures
            r@ == self.host@ + ":"@ + fmt_int(self.port as int, 0),
    {
        let mut r = self.host.clone();
        r.append(":");
        let p = format_int(self.port as i64, 0);
        r.append(p.as_str());
        r
    }
}

} // verus!

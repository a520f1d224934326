//! Configuration assembled from environment text. Reading the
//! environment happens in the unverified shell; the selection of
//! fallbacks, the numeric parsing and the requiredness rules are
//! decided and verified here.

use vstd::prelude::*;
use crate::parse::{
    is_signed_numeral, is_unsigned_numeral, parse_i64, parse_u64, signed_numeral_value,
    unsigned_numeral_value,
};

verus! {

/// The value of an environment variable, or a default text when it is
/// not set.
pub open spec fn env_or(value: Option<String>, default: Seq<char>) -> Seq<char> {
    match value {
        Some(s) => s@,
        None => default,
    }
}

/// The first of two environment variables that is set, or a default.
pub open spec fn env_or2(
    first: Option<String>,
    second: Option<String>,
    default: Seq<char>,
) -> Seq<char> {
    match first {
        Some(s) => s@,
        None => env_or(second, default),
    }
}

/// The listener settings of the server.
#[derive(Debug)]
pub struct ServerConfig {
    pub port: u16,
    pub body_limit: u64,
    pub timeout: u64,
}

/// Why a configuration could not be assembled.
#[derive(Clone, Copy, Debug, PartialEq, Eq, Structural)]
pub enum ConfigError {
    BadPort,
    BadBodyLimit,
    BadTimeout,
    MissingJwtSecret,
    MissingJwtTtl,
    BadJwtTtl,
    MissingCloudinaryCloudName,
    MissingCloudinaryApiKey,
    MissingCloudinaryApiSecret,
}

/// Whether a text is an unsigned decimal numeral whose value fits below
/// a bound.
pub open spec fn numeral_within(s: Seq<char>, bound: int) -> bool {
    is_unsigned_numeral(s) && unsigned_numeral_value(s) <= bound
}

/// Assembles the server settings: the port comes from the first of the
/// two port variables that is set (default 80), the body limit and the
/// timeout from their variables (defaults 10 and 60); each must be a
/// decimal numeral in range, checked in that order.
pub fn build_server_config(
    port_env: Option<String>,
    server_port_env: Option<String>,
    body_limit_env: Option<String>,
    timeout_env: Option<String>,
) -> (r: Result<ServerConfig, ConfigError>)
    ensures
        ({
            let ps = env_or2(port_env, server_port_env, "80"@);
            let bs = env_or(body_limit_env, "10"@);
            let ts = env_or(timeout_env, "60"@);
            match r {
                Ok(cfg) => numeral_within(ps, u16::MAX as int) && numeral_within(
                    bs,
                    u64::MAX as int,
                ) && numeral_within(ts, u64::MAX as int) && cfg.port as int
                    == unsigned_numeral_value(ps) && cfg.body_limit as int
                    == unsigned_numeral_value(bs) && cfg.timeout as int == unsigned_numeral_value(
                    ts,
                ),
                Err(e) => match e {
                    ConfigError::BadPort => !numeral_within(ps, u16::MAX as int),
                    ConfigError::BadBodyLimit => numeral_within(ps, u16::MAX as int)
                        && !numeral_within(bs, u64::MAX as int),
                    ConfigError::BadTimeout => numeral_within(ps, u16::MAX as int)
                        && numeral_within(bs, u64::MAX as int) && !numeral_within(
                        ts,
                        u64::MAX as int,
                    ),
                    _ => false,
                },
            }
        }),
{
    let port_text: String = match port_env {
        Some(p) => p,
        None => match server_port_env {
            Some(p) => p,
            None => String::from_str("80"),
        },
    };
    let port: u16 = match parse_u64(port_text.as_str()) {
        Some(v) => {
            if v <= 65535 {
                v as u16
            } else {
                return Err(ConfigError::BadPort);
            }
        },
        None => {
            return Err(ConfigError::BadPort);
        },
    };
    let body_text: String = match body_limit_env {
        Some(p) => p,
        None => String::from_str("10"),
    };
    let body_limit: u64 = match parse_u64(body_text.as_str()) {
        Some(v) => v,
        None => {
            return Err(ConfigError::BadBodyLimit);
        },
    };
    let timeout_text: String = match timeout_env {
        Some(p) => p,
        None => String::from_str("60"),
    };
    let timeout: u64 = match parse_u64(timeout_text.as_str()) {
        Some(v) => v,
        None => {
            return Err(ConfigError::BadTimeout);
        },
    };
    Ok(ServerConfig { port, body_limit, timeout })
}

/// Everything the process needs at startup.
#[derive(Debug)]
pub struct AppConfig {
    pub server: ServerConfig,
    pub database_url: String,
    pub secret: String,
}

/// Assembles the whole startup configuration. A missing database URL is
/// fatal to startup, so the caller establishes it is present before
/// calling; the signing secret falls back to a placeholder.
pub fn build_config(
    port_env: Option<String>,
    server_port_env: Option<String>,
    body_limit_env: Option<String>,
    timeout_env: Option<String>,
    database_url_env: Option<String>,
    secret_env: Option<String>,
) -> (r: Result<AppConfig, ConfigError>)
    requires
        database_url_env is Some,
    ensures
        ({
            let ps = env_or2(port_env, server_port_env, "80"@);
            let bs = env_or(body_limit_env, "10"@);
            let ts = env_or(timeout_env, "60"@);
            match r {
                Ok(cfg) => numeral_within(ps, u16::MAX as int) && numeral_within(
                    bs,
                    u64::MAX as int,
                ) && numeral_within(ts, u64::MAX as int) && cfg.server.port as int
                    == unsigned_numeral_value(ps) && cfg.server.body_limit as int
                    == unsigned_numeral_value(bs) && cfg.server.timeout as int
                    == unsigned_numeral_value(ts) && database_url_env == Some(cfg.database_url)
                    && cfg.secret@ == env_or(secret_env, "change_me_in_production"@),
                Err(e) => match e {
                    ConfigError::BadPort => !numeral_within(ps, u16::MAX as int),
                    ConfigError::BadBodyLimit => numeral_within(ps, u16::MAX as int)
                        && !numeral_within(bs, u64::MAX as int),
                    ConfigError::BadTimeout => numeral_within(ps, u16::MAX as int)
                        && numeral_within(bs, u64::MAX as int) && !numeral_within(
                        ts,
                        u64::MAX as int,
                    ),
                    _ => false,
                },
            }
        }),
{
    let server = match build_server_config(port_env, server_port_env, body_limit_env, timeout_env) {
        Ok(s) => s,
        Err(e) => {
            return Err(e);
        },
    };
    let database_url = match database_url_env {
        Some(u) => u,
        None => unreached(),
    };
    let secret = match secret_env {
        Some(s) => s,
        None => String::from_str("change_me_in_production"),
    };
    Ok(AppConfig { server, database_url, secret })
}

/// Token-signing settings.
#[derive(Debug)]
pub struct JwtConfig {
    pub secret: String,
    pub ttl: i64,
}

/// Assembles the token-signing settings: both variables are required,
/// and the lifetime must be a signed decimal numeral that fits an `i64`.
pub fn build_jwt_config(secret_env: Option<String>, ttl_env: Option<String>) -> (r: Result<
    JwtConfig,
    ConfigError,
>)
    ensures
        ({
            match r {
                Ok(cfg) => secret_env == Some(cfg.secret) && match ttl_env {
                    Some(t) => is_signed_numeral(t@) && signed_numeral_value(t@) == cfg.ttl as int,
                    None => false,
                },
                Err(e) => match e {
                    ConfigError::MissingJwtSecret => secret_env is None,
                    ConfigError::MissingJwtTtl => secret_env is Some && ttl_env is None,
                    ConfigError::BadJwtTtl => secret_env is Some && match ttl_env {
                        Some(t) => !(is_signed_numeral(t@) && i64::MIN <= signed_numeral_value(t@)
                            <= i64::MAX),
                        None => false,
                    },
                    _ => false,
                },
            }
        }),
{
    let secret = match secret_env {
        Some(s) => s,
        None => {
            return Err(ConfigError::MissingJwtSecret);
        },
    };
    let ttl_text = match ttl_env {
        Some(t) => t,
        None => {
            return Err(ConfigError::MissingJwtTtl);
        },
    };
    match parse_i64(ttl_text.as_str()) {
        Some(ttl) => Ok(JwtConfig { secret, ttl }),
        None => Err(ConfigError::BadJwtTtl),
    }
}

/// Credentials of the image host.
#[derive(Debug)]
pub struct CloudinaryConfig {
    pub cloud_name: String,
    pub api_key: String,
    pub api_secret: String,
}

/// Assembles the image-host credentials: all three are required, and
/// the error names the first one missing, checked in order.
pub fn build_cloudinary_config(
    cloud_name_env: Option<String>,
    api_key_env: Option<String>,
    api_secret_env: Option<String>,
) -> (r: Result<CloudinaryConfig, ConfigError>)
    ensures
        ({
            match r {
                Ok(cfg) => cloud_name_env == Some(cfg.cloud_name) && api_key_env == Some(
                    cfg.api_key,
                ) && api_secret_env == Some(cfg.api_secret),
                Err(e) => match e {
                    ConfigError::MissingCloudinaryCloudName => cloud_name_env is None,
                    ConfigError::MissingCloudinaryApiKey => cloud_name_env is Some
                        && api_key_env is None,
                    ConfigError::MissingCloudinaryApiSecret => cloud_name_env is Some
                        && api_key_env is Some && api_secret_env is None,
                    _ => false,
                },
            }
        }),
{
    let cloud_name = match cloud_name_env {
        Some(v) => v,
        None => {
            return Err(ConfigError::MissingCloudinaryCloudName);
        },
    };
    let api_key = match api_key_env {
        Some(v) => v,
        None => {
            return Err(ConfigError::MissingCloudinaryApiKey);
        },
    };
    let api_secret = match api_secret_env {
        Some(v) => v,
        None => {
            return Err(ConfigError::MissingCloudinaryApiSecret);
        },
    };
    Ok(CloudinaryConfig { cloud_name, api_key, api_secret })
}

} // verus!

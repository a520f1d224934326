use mission_chat::config::{
    build_cloudinary_config, build_config, build_jwt_config, build_server_config, ConfigError,
};
use mission_chat::parse::{parse_i64, parse_u64};
use mission_chat::viewing::name_like_pattern;

fn s(text: &str) -> Option<String> {
    Some(text.to_string())
}

#[test]
fn config_defaults_apply() {
    let cfg = build_config(None, None, None, None, s("postgres://db"), None).unwrap();
    assert_eq!(cfg.server.port, 80);
    assert_eq!(cfg.server.body_limit, 10);
    assert_eq!(cfg.server.timeout, 60);
    assert_eq!(cfg.database_url, "postgres://db");
    assert_eq!(cfg.secret, "change_me_in_production");
}

#[test]
fn port_variable_wins_over_fallback_variable() {
    let cfg = build_server_config(s("8080"), s("9999"), None, None).unwrap();
    assert_eq!(cfg.port, 8080);
    let cfg = build_server_config(None, s("9999"), None, None).unwrap();
    assert_eq!(cfg.port, 9999);
}

#[test]
fn malformed_numerals_are_rejected_in_order() {
    assert_eq!(build_server_config(s("abc"), None, None, None).unwrap_err(), ConfigError::BadPort);
    assert_eq!(build_server_config(s("70000"), None, None, None).unwrap_err(), ConfigError::BadPort);
    assert_eq!(
        build_server_config(None, None, s("nope"), None).unwrap_err(),
        ConfigError::BadBodyLimit
    );
    assert_eq!(
        build_server_config(None, None, None, s("x")).unwrap_err(),
        ConfigError::BadTimeout
    );
    assert_eq!(
        build_server_config(s("bad"), None, s("bad"), None).unwrap_err(),
        ConfigError::BadPort
    );
}

#[test]
fn jwt_settings() {
    let cfg = build_jwt_config(s("top"), s("3600")).unwrap();
    assert_eq!(cfg.secret, "top");
    assert_eq!(cfg.ttl, 3600);
    assert_eq!(build_jwt_config(s("top"), s("-5")).unwrap().ttl, -5);
    assert_eq!(build_jwt_config(s("top"), s("+5")).unwrap().ttl, 5);
    assert_eq!(build_jwt_config(None, s("1")).unwrap_err(), ConfigError::MissingJwtSecret);
    assert_eq!(build_jwt_config(s("top"), None).unwrap_err(), ConfigError::MissingJwtTtl);
    assert_eq!(build_jwt_config(s("top"), s("12a")).unwrap_err(), ConfigError::BadJwtTtl);
    assert_eq!(
        build_jwt_config(s("top"), s("99999999999999999999")).unwrap_err(),
        ConfigError::BadJwtTtl
    );
}

#[test]
fn cloudinary_errors_name_the_first_missing_variable() {
    let cfg = build_cloudinary_config(s("cloud"), s("key"), s("secret")).unwrap();
    assert_eq!(cfg.cloud_name, "cloud");
    assert_eq!(cfg.api_key, "key");
    assert_eq!(cfg.api_secret, "secret");
    assert_eq!(
        build_cloudinary_config(None, s("key"), s("secret")).unwrap_err(),
        ConfigError::MissingCloudinaryCloudName
    );
    assert_eq!(
        build_cloudinary_config(s("cloud"), None, s("secret")).unwrap_err(),
        ConfigError::MissingCloudinaryApiKey
    );
    assert_eq!(
        build_cloudinary_config(s("cloud"), s("key"), None).unwrap_err(),
        ConfigError::MissingCloudinaryApiSecret
    );
}

#[test]
fn parse_u64_exact_values() {
    assert_eq!(parse_u64("0"), Some(0));
    assert_eq!(parse_u64("007"), Some(7));
    assert_eq!(parse_u64("18446744073709551615"), Some(u64::MAX));
    assert_eq!(parse_u64("18446744073709551616"), None);
    assert_eq!(parse_u64(""), None);
    assert_eq!(parse_u64("1 2"), None);
    assert_eq!(parse_u64("-1"), None);
}

#[test]
fn leading_plus_sign_is_accepted() {
    assert_eq!(parse_u64("+80"), Some(80));
    assert_eq!(parse_u64("+"), None);
    assert_eq!(parse_u64("++5"), None);
    assert_eq!(parse_i64("+5"), Some(5));
    assert_eq!(build_server_config(s("+8080"), None, None, None).unwrap().port, 8080);
}

#[test]
fn parse_i64_exact_values() {
    assert_eq!(parse_i64("9223372036854775807"), Some(i64::MAX));
    assert_eq!(parse_i64("-9223372036854775808"), Some(i64::MIN));
    assert_eq!(parse_i64("-9223372036854775809"), None);
    assert_eq!(parse_i64("9223372036854775808"), None);
    assert_eq!(parse_i64("-0"), Some(0));
    assert_eq!(parse_i64("-"), None);
}

#[test]
fn name_filter_becomes_wildcard_pattern() {
    assert_eq!(name_like_pattern("ris"), "%ris%");
    assert_eq!(name_like_pattern(""), "%%");
}

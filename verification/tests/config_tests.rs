use tg_filestreambot::config::build_config;
use tg_filestreambot::config::ConfigOverrides;
use tg_filestreambot::error::AppError;
use tg_filestreambot::utils::parse_i32;
use tg_filestreambot::utils::parse_i64;
use tg_filestreambot::utils::parse_u64;

fn minimal_overrides() -> ConfigOverrides {
    ConfigOverrides {
        api_id: Some(String::from("12345")),
        api_hash: Some(String::from("hash")),
        bot_token: Some(String::from("token")),
        bin_channel: Some(String::from("-1001234")),
        multi_tokens: Vec::new(),
        port: None,
        bind_address: None,
        hash_length: None,
        fqdn: None,
        has_ssl: None,
        no_port: None,
        workers: None,
        cloudreve_enabled: None,
        cloudreve_api_url: None,
        cloudreve_username: None,
        cloudreve_email: None,
        cloudreve_password: None,
        cloudreve_download_path: None,
        log_level: None,
    }
}

#[test]
fn parse_u64_values() {
    assert_eq!(parse_u64("0"), Some(0));
    assert_eq!(parse_u64("8080"), Some(8080));
    assert_eq!(parse_u64("18446744073709551615"), Some(u64::MAX));
    assert_eq!(parse_u64("18446744073709551616"), None);
    assert_eq!(parse_u64(""), None);
    assert_eq!(parse_u64("12a"), None);
    assert_eq!(parse_u64("-1"), None);
}

#[test]
fn parse_signed_values() {
    assert_eq!(parse_i64("-1001234"), Some(-1001234));
    assert_eq!(parse_i64("42"), Some(42));
    assert_eq!(parse_i64("-9223372036854775808"), Some(i64::MIN));
    assert_eq!(parse_i64("-9223372036854775809"), None);
    assert_eq!(parse_i64("9223372036854775807"), Some(i64::MAX));
    assert_eq!(parse_i64("-"), None);
    assert_eq!(parse_i32("2147483647"), Some(i32::MAX));
    assert_eq!(parse_i32("2147483648"), None);
    assert_eq!(parse_i32("-2147483648"), Some(i32::MIN));
}

#[test]
fn build_config_minimal_takes_defaults() {
    let c = build_config(minimal_overrides()).unwrap();
    assert_eq!(c.telegram.api_id, 12345);
    assert_eq!(c.telegram.api_hash, "hash");
    assert_eq!(c.telegram.bot_token, "token");
    assert_eq!(c.telegram.bin_channel, -1001234);
    assert_eq!(c.server.port, 8080);
    assert_eq!(c.server.bind_address, "0.0.0.0");
    assert_eq!(c.server.hash_length, 6);
    assert_eq!(c.server.workers, 3);
    assert!(!c.server.has_ssl);
    assert!(!c.cloudreve.enabled);
    assert_eq!(c.cloudreve.download_path, "/");
    assert_eq!(c.logging.level, "info");
    assert_eq!(c.logging.format, "json");
}

#[test]
fn build_config_applies_overrides() {
    let mut o = minimal_overrides();
    o.port = Some(String::from("9000"));
    o.bind_address = Some(String::from("127.0.0.1"));
    o.hash_length = Some(String::from("8"));
    o.workers = Some(String::from("5"));
    o.has_ssl = Some(String::from("TRUE"));
    o.no_port = Some(String::from("yes"));
    o.cloudreve_enabled = Some(String::from("true"));
    o.cloudreve_email = Some(String::from("a@b.c"));
    o.log_level = Some(String::from("debug"));
    let c = build_config(o).unwrap();
    assert_eq!(c.server.port, 9000);
    assert_eq!(c.server.bind_address, "127.0.0.1");
    assert_eq!(c.server.hash_length, 8);
    assert_eq!(c.server.workers, 5);
    assert!(c.server.has_ssl);
    assert!(!c.server.no_port, "a value other than true is false");
    assert!(c.cloudreve.enabled);
    assert_eq!(c.cloudreve.username, "a@b.c", "username falls back to the e-mail setting");
    assert_eq!(c.logging.level, "debug");
}

#[test]
fn build_config_missing_required_fails() {
    let mut o = minimal_overrides();
    o.api_id = None;
    assert!(matches!(build_config(o), Err(AppError::Config(_))));

    let mut o = minimal_overrides();
    o.bot_token = None;
    assert!(matches!(build_config(o), Err(AppError::Config(_))));
}

#[test]
fn build_config_bad_numbers_fail() {
    let mut o = minimal_overrides();
    o.api_id = Some(String::from("not-a-number"));
    assert!(matches!(build_config(o), Err(AppError::Config(_))));

    let mut o = minimal_overrides();
    o.port = Some(String::from("70000"));
    assert!(matches!(build_config(o), Err(AppError::Config(_))));

    let mut o = minimal_overrides();
    o.workers = Some(String::from("three"));
    assert!(matches!(build_config(o), Err(AppError::Config(_))));
}

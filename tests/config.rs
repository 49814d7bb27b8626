use wazuh_cli::{decimal_string, Config};

#[test]
fn test_default_config() {
    let config = Config::default();
    assert_eq!(config.api.host, "localhost");
    assert_eq!(config.api.port, 55000);
    assert_eq!(config.api.protocol, "https");
}

#[test]
fn test_api_url() {
    let config = Config::default();
    assert_eq!(config.api_url(), "https://localhost:55000");
}

#[test]
fn api_url_uses_every_part() {
    let mut config = Config::default();
    config.api.protocol = "http".to_string();
    config.api.host = "10.0.0.7".to_string();
    config.api.port = 8;
    assert_eq!(config.api_url(), "http://10.0.0.7:8");
    config.api.port = 65535;
    assert_eq!(config.api_url(), "http://10.0.0.7:65535");
}

#[test]
fn other_defaults() {
    let config = Config::default();
    assert_eq!(config.api.timeout, 30);
    assert_eq!(config.api.max_retries, 3);
    assert_eq!(config.auth.token_expiry_hours, 24);
    assert!(config.auth.username.is_none());
    assert!(config.auth.token.is_none());
    assert_eq!(config.output.format, "table");
    assert!(config.output.color && config.output.pager);
    assert!(config.tls.verify);
    assert!(config.tls.ca_cert.is_none());
}

#[test]
fn token_update_and_clear() {
    let mut config = Config::default();
    config.auth.username = Some("admin".to_string());
    assert!(!config.is_authenticated());
    config.update_token("t1".to_string());
    assert!(config.is_authenticated());
    assert_eq!(config.auth.token.as_deref(), Some("t1"));
    assert_eq!(config.auth.username.as_deref(), Some("admin"));
    config.update_token("t2".to_string());
    assert_eq!(config.auth.token.as_deref(), Some("t2"));
    config.clear_token();
    assert!(!config.is_authenticated());
    assert_eq!(config.auth.username.as_deref(), Some("admin"));
}

#[test]
fn settings_by_key() {
    let mut config = Config::default();
    assert_eq!(config.setting("api.host").as_deref(), Some("localhost"));
    assert_eq!(config.setting("api.port").as_deref(), Some("55000"));
    assert_eq!(config.setting("api.protocol").as_deref(), Some("https"));
    assert_eq!(config.setting("api.timeout").as_deref(), Some("30"));
    assert_eq!(config.setting("api.max_retries").as_deref(), Some("3"));
    assert_eq!(config.setting("auth.username"), None);
    assert_eq!(config.setting("auth.token_expiry_hours").as_deref(), Some("24"));
    assert_eq!(config.setting("output.format").as_deref(), Some("table"));
    assert_eq!(config.setting("output.color").as_deref(), Some("true"));
    assert_eq!(config.setting("output.pager").as_deref(), Some("true"));
    assert_eq!(config.setting("tls.verify").as_deref(), Some("true"));
    assert_eq!(config.setting("auth.password"), None);
    assert_eq!(config.setting("api"), None);
    assert_eq!(config.setting(""), None);
    config.auth.username = Some("bob".to_string());
    config.tls.verify = false;
    assert_eq!(config.setting("auth.username").as_deref(), Some("bob"));
    assert_eq!(config.setting("tls.verify").as_deref(), Some("false"));
}

#[test]
fn decimal_text() {
    assert_eq!(decimal_string(0), "0");
    assert_eq!(decimal_string(9), "9");
    assert_eq!(decimal_string(10), "10");
    assert_eq!(decimal_string(1234567890), "1234567890");
    assert_eq!(decimal_string(u64::MAX), "18446744073709551615");
}

use oanda_connector::config::default_max_retries;
use oanda_connector::config::default_rate_limit;
use oanda_connector::config::default_timeout;
use oanda_connector::config::default_true;
use oanda_connector::Error;
use oanda_connector::OandaConfig;
use std::time::Duration;

fn text(value: &str) -> Option<String> {
    Some(value.to_string())
}

#[test]
fn test_config_base_url() {
    let config_practice = OandaConfig::new("key".to_string(), "id".to_string(), true);
    assert!(config_practice.get_base_url().contains("fxpractice"));

    let config_live = OandaConfig::new("key".to_string(), "id".to_string(), false);
    assert!(config_live.get_base_url().contains("fxtrade"));
}

#[test]
fn test_config_validation() {
    let mut config = OandaConfig::default();
    assert!(config.validate().is_err());

    config.api_key = "test_key".to_string();
    config.account_id = "test_id".to_string();
    assert!(config.validate().is_ok());
}

#[test]
fn defaults_of_a_new_configuration() {
    let config = OandaConfig::new("key".to_string(), "id".to_string(), true);
    assert_eq!(config.api_key, "key");
    assert_eq!(config.account_id, "id");
    assert!(config.practice);
    assert_eq!(config.base_url, None);
    assert_eq!(config.timeout_seconds, 10);
    assert_eq!(config.requests_per_second, 100);
    assert!(config.enable_retries);
    assert_eq!(config.max_retries, 3);
    assert_eq!(default_timeout(), 10);
    assert_eq!(default_rate_limit(), 100);
    assert!(default_true());
    assert_eq!(default_max_retries(), 3);
}

#[test]
fn base_url_exact_values() {
    let mut config = OandaConfig::new("key".to_string(), "id".to_string(), true);
    assert_eq!(config.get_base_url(), "https://api-fxpractice.oanda.com");
    config.practice = false;
    assert_eq!(config.get_base_url(), "https://api-fxtrade.oanda.com");
    config.base_url = Some("http://127.0.0.1:9000".to_string());
    assert_eq!(config.get_base_url(), "http://127.0.0.1:9000");
}

#[test]
fn timeout_is_whole_seconds() {
    let mut config = OandaConfig::new("key".to_string(), "id".to_string(), true);
    assert_eq!(config.timeout(), Duration::from_secs(10));
    config.timeout_seconds = 25;
    assert_eq!(config.timeout(), Duration::from_secs(25));
    assert_ne!(config.timeout(), Duration::from_millis(25));
}

#[test]
fn validation_names_the_first_fault() {
    let mut config = OandaConfig::default();
    config.timeout_seconds = 0;
    config.requests_per_second = 0;
    assert_eq!(
        config.validate(),
        Err(Error::ConfigError("API key cannot be empty".to_string()))
    );
    config.api_key = "k".to_string();
    assert_eq!(
        config.validate(),
        Err(Error::ConfigError("Account ID cannot be empty".to_string()))
    );
    config.account_id = "a".to_string();
    assert_eq!(
        config.validate(),
        Err(Error::ConfigError("Timeout must be greater than 0".to_string()))
    );
    config.timeout_seconds = 1;
    assert_eq!(
        config.validate(),
        Err(Error::ConfigError("Requests per second must be greater than 0".to_string()))
    );
    config.requests_per_second = 1;
    assert_eq!(config.validate(), Ok(()));
}

#[test]
fn from_vars_requires_the_credentials() {
    assert_eq!(
        OandaConfig::from_vars(None, text("acct"), None, None, None),
        Err(Error::ConfigError("OANDA_API_KEY environment variable not set".to_string()))
    );
    assert_eq!(
        OandaConfig::from_vars(None, None, None, None, None),
        Err(Error::ConfigError("OANDA_API_KEY environment variable not set".to_string()))
    );
    assert_eq!(
        OandaConfig::from_vars(text("key"), None, None, None, None),
        Err(Error::ConfigError("OANDA_ACCOUNT_ID environment variable not set".to_string()))
    );
}

#[test]
fn from_vars_falls_back_to_defaults() {
    let config = OandaConfig::from_vars(text("key"), text("acct"), None, None, None).unwrap();
    assert_eq!(config, OandaConfig::new("key".to_string(), "acct".to_string(), true));
}

#[test]
fn from_vars_reads_the_settings() {
    let config =
        OandaConfig::from_vars(text("key"), text("acct"), text("false"), text("30"), text("+7"))
            .unwrap();
    assert!(!config.practice);
    assert_eq!(config.timeout_seconds, 30);
    assert_eq!(config.requests_per_second, 7);
    assert!(config.enable_retries);
    assert_eq!(config.max_retries, 3);
    assert_eq!(config.base_url, None);
}

#[test]
fn from_vars_ignores_what_it_cannot_read() {
    let config = OandaConfig::from_vars(
        text("key"),
        text("acct"),
        text("FALSE"),
        text("ten"),
        text("4294967296"),
    )
    .unwrap();
    assert!(config.practice);
    assert_eq!(config.timeout_seconds, 10);
    assert_eq!(config.requests_per_second, 100);

    let config =
        OandaConfig::from_vars(text("key"), text("acct"), text("no"), text(" 5"), text("-3"))
            .unwrap();
    assert!(config.practice);
    assert_eq!(config.timeout_seconds, 10);
    assert_eq!(config.requests_per_second, 100);

    let config = OandaConfig::from_vars(
        text("key"),
        text("acct"),
        text("true"),
        text("18446744073709551615"),
        text("4294967295"),
    )
    .unwrap();
    assert!(config.practice);
    assert_eq!(config.timeout_seconds, u64::MAX);
    assert_eq!(config.requests_per_second, u32::MAX);
}

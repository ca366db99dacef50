use rinha_de_backend::settings::{Config, ConfigError};

const APP_PREFIX: &str = "APP";

fn pair(k: &str, v: &str) -> (String, String) {
    (k.to_string(), v.to_string())
}

fn create_config_for_test() -> Config {
    assert_eq!(APP_PREFIX, "APP");
    let pairs = vec![
        pair("APP_REDIS_URL", "redis://test_redis/"),
        pair("APP_DEFAULT_PAYMENT_PROCESSOR_URL", "http://test_default/"),
        pair("APP_FALLBACK_PAYMENT_PROCESSOR_URL", "http://test_fallback/"),
        pair("APP_SERVER_KEEPALIVE", "120"),
        pair("APP_REPORT_URL", "/tmp/reports"),
    ];
    Config::load_from(pairs).expect("Failed to load config in test")
}

#[test]
fn test_config_load_fails_when_app_configs_are_unavailable() {
    assert!(Config::load().is_err());
}

#[test]
fn test_config_load_app_settings() {
    let config = create_config_for_test();

    assert_eq!(config.redis_url, "redis://test_redis/");
    assert_eq!(config.default_payment_processor_url, "http://test_default/");
    assert_eq!(config.fallback_payment_processor_url, "http://test_fallback/");
    assert_eq!(config.server_keepalive, 120);
    assert_eq!(config.report_url, Some("/tmp/reports".to_string()));
}

#[test]
fn test_config_load_without_report_url() {
    let pairs = vec![
        pair("APP_REDIS_URL", "redis://test_redis_no_report/"),
        pair(
            "APP_DEFAULT_PAYMENT_PROCESSOR_URL",
            "http://test_default_no_report/",
        ),
        pair(
            "APP_FALLBACK_PAYMENT_PROCESSOR_URL",
            "http://test_fallback_no_report/",
        ),
        pair("APP_SERVER_KEEPALIVE", "120"),
    ];

    let config = Config::load_from(pairs).expect("Failed to load config in test");

    assert_eq!(config.redis_url, "redis://test_redis_no_report/");
    assert_eq!(
        config.default_payment_processor_url,
        "http://test_default_no_report/"
    );
    assert_eq!(
        config.fallback_payment_processor_url,
        "http://test_fallback_no_report/"
    );
    assert_eq!(config.server_keepalive, 120);
    assert_eq!(config.report_url, None);
}

#[test]
fn test_get_default_key() {
    let config = create_config_for_test();
    let default_key = config.get_default_key();

    assert_eq!(default_key.name, "default");
    assert_eq!(default_key.url, config.default_payment_processor_url);
}

#[test]
fn test_get_fallback_key() {
    let config = create_config_for_test();
    let fallback_key = config.get_fallback_key();

    assert_eq!(fallback_key.name, "fallback");
    assert_eq!(fallback_key.url, config.fallback_payment_processor_url);
}

#[test]
fn test_get_processors_keys() {
    let config = create_config_for_test();
    let keys = config.get_processors_keys();

    assert_eq!(keys.len(), 2);
    assert_eq!(keys[0], config.get_default_key());
    assert_eq!(keys[1], config.get_fallback_key());
}

#[test]
fn test_config_load_missing_key_error() {
    let pairs = vec![pair("APP_REDIS_URL", "redis://only/")];
    assert_eq!(Config::load_from(pairs), Err(ConfigError::MissingKey));
}

#[test]
fn test_config_load_invalid_keepalive_error() {
    let pairs = vec![
        pair("APP_REDIS_URL", "redis://test_redis/"),
        pair("APP_DEFAULT_PAYMENT_PROCESSOR_URL", "http://test_default/"),
        pair("APP_FALLBACK_PAYMENT_PROCESSOR_URL", "http://test_fallback/"),
        pair("APP_SERVER_KEEPALIVE", "sixty"),
    ];
    assert_eq!(Config::load_from(pairs), Err(ConfigError::InvalidValue));
}

#[test]
fn test_config_worker_count_defaults_to_four() {
    let config = create_config_for_test();
    assert_eq!(config.payment_processor_worker_count, 4);
}

#[test]
fn test_config_worker_count_is_read_when_set() {
    let pairs = vec![
        pair("APP_REDIS_URL", "redis://test_redis/"),
        pair("APP_DEFAULT_PAYMENT_PROCESSOR_URL", "http://test_default/"),
        pair("APP_FALLBACK_PAYMENT_PROCESSOR_URL", "http://test_fallback/"),
        pair("APP_SERVER_KEEPALIVE", "120"),
        pair("APP_PAYMENT_PROCESSOR_WORKER_COUNT", "16"),
    ];
    let config = Config::load_from(pairs).expect("worker count loads");
    assert_eq!(config.payment_processor_worker_count, 16);
}

#[test]
fn test_config_worker_count_rejects_garbage() {
    let pairs = vec![
        pair("APP_REDIS_URL", "redis://test_redis/"),
        pair("APP_DEFAULT_PAYMENT_PROCESSOR_URL", "http://test_default/"),
        pair("APP_FALLBACK_PAYMENT_PROCESSOR_URL", "http://test_fallback/"),
        pair("APP_SERVER_KEEPALIVE", "120"),
        pair("APP_PAYMENT_PROCESSOR_WORKER_COUNT", "many"),
    ];
    assert_eq!(Config::load_from(pairs), Err(ConfigError::InvalidValue));
}

#[test]
fn test_config_load_accepts_lowercased_keys() {
    let pairs = vec![
        pair("app_redis_url", "redis://lower/"),
        pair("app_default_payment_processor_url", "http://lower_default/"),
        pair("app_fallback_payment_processor_url", "http://lower_fallback/"),
        pair("app_server_keepalive", "60"),
    ];
    let config = Config::load_from(pairs).expect("lowercased keys load");
    assert_eq!(config.redis_url, "redis://lower/");
    assert_eq!(config.server_keepalive, 60);
}

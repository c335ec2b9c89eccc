//! Tests of the configuration types, defaults, overrides and validation.

use neopilot::config::{Config, ConfigError, TokenizerConfig, NetworkConfig, LoggingConfig};
use neopilot::loader::{ConfigLoader, env_key_to_path};
use neopilot::validation::{
    validate_config, validate_tokenizer_config, validate_network_config,
    validate_performance_config, validate_logging_config,
};

#[test]
fn test_validate_tokenizer_config() {
    let mut config = TokenizerConfig::default();

    // Valid config
    assert!(validate_tokenizer_config(&config).is_ok());

    // Invalid max_tokens
    config.max_tokens = 0;
    assert!(validate_tokenizer_config(&config).is_err());
    config.max_tokens = 4096;

    // Invalid chunk_size
    config.chunk_size = 0;
    assert!(validate_tokenizer_config(&config).is_err());
    config.chunk_size = 1000;

    // Invalid batch_size
    config.batch_size = 0;
    assert!(validate_tokenizer_config(&config).is_err());
}

#[test]
fn test_validate_network_config() {
    let mut config = NetworkConfig::default();

    // Valid config
    assert!(validate_network_config(&config).is_ok());

    // Invalid max_retries
    config.max_retries = 11;
    assert!(validate_network_config(&config).is_err());
    config.max_retries = 3;

    // Invalid connect_timeout
    config.connect_timeout = 0;
    assert!(validate_network_config(&config).is_err());
    config.connect_timeout = 10;

    // Invalid max_download_size
    config.max_download_size = 2 * 1024 * 1024 * 1024; // 2GB
    assert!(validate_network_config(&config).is_err());
}

#[test]
fn test_default_config() {
    let config = Config::default();
    assert_eq!(config.tokenizer.model, "gpt-4o");
    assert_eq!(config.network.max_retries, 3);
    assert!(config.cache.enabled);
}

#[test]
fn test_config_validation() {
    let mut config = Config::default();
    config.tokenizer.max_tokens = 4096;
    assert!(validate_config(&config).is_ok());
    config.network.max_retries = 11;
    assert!(validate_config(&config).is_err());
}

#[test]
fn validate_performance_rejects_zero_threads() {
    let mut config = Config::default();
    assert!(validate_performance_config(&config.performance).is_ok());
    config.performance.worker_threads = 0;
    assert!(validate_performance_config(&config.performance).is_err());
}

#[test]
fn logging_level_validation() {
    let mut config = LoggingConfig::default();
    assert!(validate_logging_config(&config).is_ok());
    config.level = "invalid".to_string();
    assert!(validate_logging_config(&config).is_err());
    config.level = "INFO".to_string();
    assert!(validate_logging_config(&config).is_ok());
}

#[test]
fn set_from_str_sets_known_paths() {
    let mut config = Config::default();
    config.set_from_str("tokenizer.model", "custom-model").unwrap();
    assert_eq!(config.tokenizer.model, "custom-model");
    config.set_from_str("network.max_retries", "5").unwrap();
    assert_eq!(config.network.max_retries, 5);
    // a second set keeps the earlier one
    assert_eq!(config.tokenizer.model, "custom-model");
    config.set_from_str("cache.enabled", "false").unwrap();
    assert!(!config.cache.enabled);
    config.set_from_str("tokenizer.max_tokens", "2048").unwrap();
    assert_eq!(config.tokenizer.max_tokens, 2048);
}

#[test]
fn set_from_str_rejects_unknown_path_and_bad_value() {
    let mut config = Config::default();
    let before_retries = config.network.max_retries;
    assert!(matches!(
        config.set_from_str("nonsense.path", "1"),
        Err(ConfigError::InvalidPath(_))
    ));
    assert!(matches!(
        config.set_from_str("network.max_retries", "many"),
        Err(ConfigError::InvalidValue(_))
    ));
    assert_eq!(config.network.max_retries, before_retries);
}

#[test]
fn env_keys_map_to_option_paths() {
    assert_eq!(
        env_key_to_path("NEOPILOT_", "NEOPILOT_TOKENIZER_MODEL").as_deref(),
        Some("tokenizer_model"),
        "a single underscore does not become a dot"
    );
    assert_eq!(
        env_key_to_path("NEOPILOT_", "NEOPILOT_NETWORK__MAX_RETRIES").as_deref(),
        Some("network.max_retries")
    );
    assert_eq!(env_key_to_path("NEOPILOT_", "OTHER_NETWORK__MAX_RETRIES"), None);
}

#[test]
fn env_override_pairs_are_applied() {
    let loader = ConfigLoader::new();
    let mut config = Config::default();
    let vars = vec![
        ("NEOPILOT_NETWORK__MAX_RETRIES".to_string(), "5".to_string()),
        ("NEOPILOT_CACHE__ENABLED".to_string(), "false".to_string()),
        ("UNRELATED".to_string(), "x".to_string()),
    ];
    loader.apply_env_overrides(&mut config, &vars).unwrap();
    assert_eq!(config.network.max_retries, 5);
    assert!(!config.cache.enabled);
}

#[test]
fn manual_overrides_are_applied_in_order() {
    let loader = ConfigLoader::new()
        .with_override("tokenizer.model", "overridden-model")
        .with_override("network.max_retries", "10")
        .with_override("tokenizer.model", "final-model");
    let mut config = Config::default();
    loader.apply_manual_overrides(&mut config).unwrap();
    assert_eq!(config.tokenizer.model, "final-model");
    assert_eq!(config.network.max_retries, 10);
}

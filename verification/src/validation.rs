//! Configuration validation: the value-range rules each section must meet.
//! Checks that touch the file system (directory writability) belong to the
//! host layer; everything here is a pure function of the values.

use vstd::prelude::*;
use crate::config::{
    Config, ConfigError, TokenizerConfig, NetworkConfig, CacheConfig, PerformanceConfig,
    LoggingConfig,
};
use crate::util::{str_to_lowercase, str_eq, lower_of};

verus! {

/// The value rules of the tokenizer section.
pub open spec fn spec_tokenizer_ok(c: TokenizerConfig) -> bool {
    c.max_tokens > 0 && c.chunk_size > 0 && c.batch_size > 0 && c.timeout > 0
}

/// Validate tokenizer configuration.
pub fn validate_tokenizer_config(config: &TokenizerConfig) -> (r: Result<(), ConfigError>)
    ensures
        r is Ok <==> spec_tokenizer_ok(*config),
        r is Err ==> r->Err_0 matches ConfigError::ValidationError(_),
{
    if config.max_tokens == 0 {
        return Err(
            ConfigError::ValidationError("tokenizer.max_tokens must be greater than 0".to_owned()),
        );
    }
    if config.chunk_size == 0 {
        return Err(
            ConfigError::ValidationError("tokenizer.chunk_size must be greater than 0".to_owned()),
        );
    }
    if config.batch_size == 0 {
        return Err(
            ConfigError::ValidationError("tokenizer.batch_size must be greater than 0".to_owned()),
        );
    }
    if config.timeout == 0 {
        return Err(
            ConfigError::ValidationError("tokenizer.timeout must be greater than 0".to_owned()),
        );
    }
    Ok(())
}

/// The value rules of the network section.
pub open spec fn spec_network_ok(c: NetworkConfig) -> bool {
    c.max_retries <= 10 && c.connect_timeout > 0 && c.request_timeout > 0 && c.max_download_size
        <= 1073741824
}

/// Validate network configuration.
pub fn validate_network_config(config: &NetworkConfig) -> (r: Result<(), ConfigError>)
    ensures
        r is Ok <==> spec_network_ok(*config),
        r is Err ==> r->Err_0 matches ConfigError::ValidationError(_),
{
    if config.max_retries > 10 {
        return Err(ConfigError::ValidationError("network.max_retries cannot exceed 10".to_owned()));
    }
    if config.connect_timeout == 0 {
        return Err(
            ConfigError::ValidationError(
                "network.connect_timeout must be greater than 0".to_owned(),
            ),
        );
    }
    if config.request_timeout == 0 {
        return Err(
            ConfigError::ValidationError(
                "network.request_timeout must be greater than 0".to_owned(),
            ),
        );
    }
    if config.max_download_size > 1073741824 {
        return Err(
            ConfigError::ValidationError("network.max_download_size cannot exceed 1GB".to_owned()),
        );
    }
    Ok(())
}

/// The value rules of the cache section.
pub open spec fn spec_cache_ok(c: CacheConfig) -> bool {
    c.enabled ==> (c.ttl > 0 && c.max_size > 0)
}

/// Validate cache configuration; whether the cache directory is writable is
/// checked by the host layer, which owns the file system.
pub fn validate_cache_config(config: &CacheConfig) -> (r: Result<(), ConfigError>)
    ensures
        r is Ok <==> spec_cache_ok(*config),
        r is Err ==> r->Err_0 matches ConfigError::ValidationError(_),
{
    if config.enabled {
        if config.ttl == 0 {
            return Err(
                ConfigError::ValidationError(
                    "cache.ttl must be greater than 0 when caching is enabled".to_owned(),
                ),
            );
        }
        if config.max_size == 0 {
            return Err(
                ConfigError::ValidationError(
                    "cache.max_size must be greater than 0 when caching is enabled".to_owned(),
                ),
            );
        }
    }
    Ok(())
}

/// The value rules of the performance section.
pub open spec fn spec_performance_ok(c: PerformanceConfig) -> bool {
    c.worker_threads > 0 && c.channel_capacity > 0 && c.debounce_ms > 0 && c.max_memory_mb > 0
}

/// Validate performance configuration.
pub fn validate_performance_config(config: &PerformanceConfig) -> (r: Result<(), ConfigError>)
    ensures
        r is Ok <==> spec_performance_ok(*config),
        r is Err ==> r->Err_0 matches ConfigError::ValidationError(_),
{
    if config.worker_threads == 0 {
        return Err(
            ConfigError::ValidationError(
                "performance.worker_threads must be greater than 0".to_owned(),
            ),
        );
    }
    if config.channel_capacity == 0 {
        return Err(
            ConfigError::ValidationError(
                "performance.channel_capacity must be greater than 0".to_owned(),
            ),
        );
    }
    if config.debounce_ms == 0 {
        return Err(
            ConfigError::ValidationError(
                "performance.debounce_ms must be greater than 0".to_owned(),
            ),
        );
    }
    if config.max_memory_mb == 0 {
        return Err(
            ConfigError::ValidationError(
                "performance.max_memory_mb must be greater than 0".to_owned(),
            ),
        );
    }
    Ok(())
}

/// The level names accepted by the logging section, compared on the
/// lowercase form of the configured level.
pub open spec fn spec_level_ok(level: Seq<char>) -> bool {
    lower_of(level) == "error"@ || lower_of(level) == "warn"@ || lower_of(level) == "info"@
        || lower_of(level) == "debug"@ || lower_of(level) == "trace"@
}

/// The value rules of the logging section.
pub open spec fn spec_logging_ok(c: LoggingConfig) -> bool {
    spec_level_ok(c.level@) && c.max_files > 0 && c.max_size_mb > 0
}

/// Validate logging configuration; whether the log directory is writable is
/// checked by the host layer.
pub fn validate_logging_config(config: &LoggingConfig) -> (r: Result<(), ConfigError>)
    ensures
        r is Ok <==> spec_logging_ok(*config),
        r is Err ==> r->Err_0 matches ConfigError::ValidationError(_),
{
    let lowered = str_to_lowercase(config.level.as_str());
    let level_ok = str_eq(lowered.as_str(), "error") || str_eq(lowered.as_str(), "warn") || str_eq(
        lowered.as_str(),
        "info",
    ) || str_eq(lowered.as_str(), "debug") || str_eq(lowered.as_str(), "trace");
    if !level_ok {
        let mut msg: String = "Invalid log level '".to_owned();
        msg.append(config.level.as_str());
        msg.append("'. Must be one of: error, warn, info, debug, trace");
        return Err(ConfigError::ValidationError(msg));
    }
    if config.max_files == 0 {
        return Err(
            ConfigError::ValidationError("logging.max_files must be greater than 0".to_owned()),
        );
    }
    if config.max_size_mb == 0 {
        return Err(
            ConfigError::ValidationError("logging.max_size_mb must be greater than 0".to_owned()),
        );
    }
    Ok(())
}

/// All value rules of a configuration at once.
pub open spec fn spec_config_ok(c: Config) -> bool {
    spec_tokenizer_ok(c.tokenizer) && spec_network_ok(c.network) && spec_cache_ok(c.cache)
        && spec_performance_ok(c.performance) && spec_logging_ok(c.logging)
}

/// Validate the whole configuration, section by section.
pub fn validate_config(config: &Config) -> (r: Result<(), ConfigError>)
    ensures
        r is Ok <==> spec_config_ok(*config),
        r is Err ==> r->Err_0 matches ConfigError::ValidationError(_),
{
    match validate_tokenizer_config(&config.tokenizer) {
        Err(e) => {
            return Err(e);
        },
        Ok(_) => {},
    }
    match validate_network_config(&config.network) {
        Err(e) => {
            return Err(e);
        },
        Ok(_) => {},
    }
    match validate_cache_config(&config.cache) {
        Err(e) => {
            return Err(e);
        },
        Ok(_) => {},
    }
    match validate_performance_config(&config.performance) {
        Err(e) => {
            return Err(e);
        },
        Ok(_) => {},
    }
    match validate_logging_config(&config.logging) {
        Err(e) => {
            return Err(e);
        },
        Ok(_) => {},
    }
    Ok(())
}

} // verus!

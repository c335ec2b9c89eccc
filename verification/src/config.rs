//! Configuration types and their defaults, and the verified string-path
//! setter that environment variables and manual overrides go through.
//! Reading files and the process environment belongs to the host layer; it
//! hands this module plain key/value pairs.

use vstd::prelude::*;
use crate::util::str_eq;

verus! {

/// Errors that can occur during configuration loading and processing.
#[derive(Debug)]
pub enum ConfigError {
    /// I/O error while reading configuration: the message and the path.
    IoError(String, String),
    /// TOML parsing error: the message and the path.
    TomlError(String, String),
    /// Invalid configuration path.
    InvalidPath(String),
    /// Could not determine configuration directory.
    NoConfigDir,
    /// Configuration validation error.
    ValidationError(String),
    /// Invalid configuration value.
    InvalidValue(String),
    /// Missing required configuration.
    MissingValue(String),
}

/// Configuration for tokenizer-related settings.  Durations are seconds.
pub struct TokenizerConfig {
    /// The model to use for tokenization.
    pub model: String,
    /// Directory for caching tokenizer files.
    pub cache_dir: String,
    /// Maximum number of tokens to process.
    pub max_tokens: usize,
    /// Size of text chunks to process at once.
    pub chunk_size: usize,
    /// Number of items to process in a batch.
    pub batch_size: usize,
    /// Timeout for tokenizer operations, in seconds.
    pub timeout: u64,
}

/// Network-related configuration.  Durations are seconds.
pub struct NetworkConfig {
    /// Maximum number of retry attempts.
    pub max_retries: u32,
    /// Connection timeout in seconds.
    pub connect_timeout: u64,
    /// Request timeout in seconds.
    pub request_timeout: u64,
    /// List of allowed domains for network requests.
    pub allowed_domains: Vec<String>,
    /// Maximum download size in bytes.
    pub max_download_size: u64,
}

/// Caching configuration.
pub struct CacheConfig {
    /// Whether caching is enabled.
    pub enabled: bool,
    /// Time-to-live for cache entries in seconds.
    pub ttl: u64,
    /// Maximum cache size in bytes.
    pub max_size: u64,
    /// Path to the cache directory.
    pub path: String,
}

/// Performance-related configuration.
pub struct PerformanceConfig {
    /// Number of worker threads to use.
    pub worker_threads: usize,
    /// Capacity of the channel for inter-thread communication.
    pub channel_capacity: usize,
    /// Debounce time in milliseconds.
    pub debounce_ms: u64,
    /// Maximum memory usage in MB.
    pub max_memory_mb: u64,
}

/// Logging configuration.
pub struct LoggingConfig {
    /// Logging level (error, warn, info, debug, trace).
    pub level: String,
    /// Optional path to a log file.
    pub file: Option<String>,
    /// Maximum number of log files to keep.
    pub max_files: usize,
    /// Maximum size of each log file in MB.
    pub max_size_mb: u64,
}

/// Main configuration structure containing all configuration options.
pub struct Config {
    /// Tokenizer configuration.
    pub tokenizer: TokenizerConfig,
    /// Network-related configuration.
    pub network: NetworkConfig,
    /// Caching configuration.
    pub cache: CacheConfig,
    /// Performance-related settings.
    pub performance: PerformanceConfig,
    /// Logging configuration.
    pub logging: LoggingConfig,
}

/// Relies on dirs::cache_dir: the platform's cache directory, if the
/// environment defines one; the result depends on the environment, so
/// nothing more is assumed of it.
#[verifier::external_body]
fn cache_dir_path() -> Option<String> {
    dirs::cache_dir().map(|p| p.to_string_lossy().into_owned())
}

/// Relies on num_cpus::get: the number of logical CPUs the system reports;
/// the result depends on the machine, so nothing is assumed of it.
#[verifier::external_body]
fn cpu_count() -> usize {
    num_cpus::get()
}

fn cache_base_dir() -> String {
    match cache_dir_path() {
        Some(p) => p,
        None => "/tmp/neopilot".to_owned(),
    }
}

impl Default for TokenizerConfig {
    fn default() -> (r: TokenizerConfig)
        ensures
            r.model@ == "gpt-4o"@,
            r.max_tokens == 4096,
            r.chunk_size == 1000,
            r.batch_size == 10,
            r.timeout == 30,
    {
        TokenizerConfig {
            model: "gpt-4o".to_owned(),
            cache_dir: cache_base_dir(),
            max_tokens: 4096,
            chunk_size: 1000,
            batch_size: 10,
            timeout: 30,
        }
    }
}

impl Default for NetworkConfig {
    fn default() -> (r: NetworkConfig)
        ensures
            r.max_retries == 3,
            r.connect_timeout == 10,
            r.request_timeout == 30,
            r.allowed_domains@.len() == 2,
            r.allowed_domains@[0]@ == "huggingface.co"@,
            r.allowed_domains@[1]@ == "cdn-lfs.huggingface.co"@,
            r.max_download_size == 104857600,
    {
        let mut allowed_domains: Vec<String> = Vec::new();
        allowed_domains.push("huggingface.co".to_owned());
        allowed_domains.push("cdn-lfs.huggingface.co".to_owned());
        NetworkConfig {
            max_retries: 3,
            connect_timeout: 10,
            request_timeout: 30,
            allowed_domains,
            max_download_size: 104857600,
        }
    }
}

impl Default for CacheConfig {
    fn default() -> (r: CacheConfig)
        ensures
            r.enabled == true,
            r.ttl == 86400,
            r.max_size == 1073741824,
    {
        let mut path = cache_base_dir();
        path.append("/cache");
        CacheConfig { enabled: true, ttl: 86400, max_size: 1073741824, path }
    }
}

impl Default for PerformanceConfig {
    fn default() -> (r: PerformanceConfig)
        ensures
            r.worker_threads >= 1,
            r.channel_capacity == 1000,
            r.debounce_ms == 100,
            r.max_memory_mb == 4096,
    {
        let c = cpu_count();
        let worker_threads: usize = if c < 1 {
            1
        } else {
            c
        };
        PerformanceConfig {
            worker_threads,
            channel_capacity: 1000,
            debounce_ms: 100,
            max_memory_mb: 4096,
        }
    }
}

impl Default for LoggingConfig {
    fn default() -> (r: LoggingConfig)
        ensures
            r.level@ == "info"@,
            r.file is Some,
            r.max_files == 5,
            r.max_size_mb == 50,
    {
        let mut log_path = cache_base_dir();
        log_path.append("/neopilot.log");
        LoggingConfig { level: "info".to_owned(), file: Some(log_path), max_files: 5, max_size_mb: 50 }
    }
}

impl Default for Config {
    fn default() -> (r: Config)
        ensures
            r.tokenizer.model@ == "gpt-4o"@,
            r.tokenizer.max_tokens == 4096,
            r.tokenizer.chunk_size == 1000,
            r.tokenizer.batch_size == 10,
            r.tokenizer.timeout == 30,
            r.network.max_retries == 3,
            r.network.connect_timeout == 10,
            r.network.request_timeout == 30,
            r.network.max_download_size == 104857600,
            r.cache.enabled == true,
            r.cache.ttl == 86400,
            r.cache.max_size == 1073741824,
            r.performance.worker_threads >= 1,
            r.performance.channel_capacity == 1000,
            r.performance.debounce_ms == 100,
            r.performance.max_memory_mb == 4096,
            r.logging.level@ == "info"@,
            r.logging.max_files == 5,
            r.logging.max_size_mb == 50,
    {
        Config {
            tokenizer: TokenizerConfig::default(),
            network: NetworkConfig::default(),
            cache: CacheConfig::default(),
            performance: PerformanceConfig::default(),
            logging: LoggingConfig::default(),
        }
    }
}

// ---------------------------------------------------------------------------
// Verified decimal parsing for override values
// ---------------------------------------------------------------------------

pub open spec fn is_digit(c: char) -> bool {
    '0' <= c && c <= '9'
}

pub open spec fn digit_val(c: char) -> int {
    (c as u32) - ('0' as u32)
}

pub open spec fn all_digits(s: Seq<char>) -> bool {
    forall|i: int| 0 <= i < s.len() ==> is_digit(#[trigger] s[i])
}

/// The numeric value of a digit string.
pub open spec fn digits_val(s: Seq<char>) -> int
    decreases s.len(),
{
    if s.len() == 0 {
        0
    } else {
        digits_val(s.drop_last()) * 10 + digit_val(s.last())
    }
}

/// The value a decimal string parses to, when it is a nonempty digit string
/// whose value fits.
pub open spec fn spec_parse_u64(s: Seq<char>) -> Option<u64> {
    if s.len() > 0 && all_digits(s) && digits_val(s) <= u64::MAX {
        Some(digits_val(s) as u64)
    } else {
        None
    }
}

proof fn lemma_digits_val_nonneg(s: Seq<char>)
    requires
        all_digits(s),
    ensures
        digits_val(s) >= 0,
    decreases s.len(),
{
    if s.len() > 0 {
        assert(all_digits(s.drop_last())) by {
            assert(forall|i: int|
                0 <= i < s.drop_last().len() ==> #[trigger] s.drop_last()[i] == s[i]);
        }
        lemma_digits_val_nonneg(s.drop_last());
        assert(is_digit(s.last()));
    }
}

proof fn lemma_digits_val_monotone(s: Seq<char>, i: int, j: int)
    requires
        all_digits(s),
        0 <= i <= j <= s.len(),
    ensures
        digits_val(s.take(i)) <= digits_val(s.take(j)),
    decreases j - i,
{
    if i < j {
        lemma_digits_val_monotone(s, i, j - 1);
        let tj = s.take(j);
        assert(tj.drop_last() =~= s.take(j - 1));
        assert(tj.last() == s[j - 1]);
        assert(all_digits(s.take(j - 1))) by {
            assert(forall|k: int|
                0 <= k < s.take(j - 1).len() ==> #[trigger] s.take(j - 1)[k] == s[k]);
        }
        lemma_digits_val_nonneg(s.take(j - 1));
        assert(is_digit(s[j - 1]));
        assert(digits_val(tj) >= digits_val(s.take(j - 1))) by (nonlinear_arith)
            requires
                digits_val(tj) == digits_val(s.take(j - 1)) * 10 + digit_val(s[j - 1]),
                digit_val(s[j - 1]) >= 0,
                digits_val(s.take(j - 1)) >= 0,
        ;
    }
}

/// Parse a nonempty decimal digit string into a 64-bit value; anything else
/// — empty, non-digits, or overflow — is rejected.
pub fn parse_u64(s: &str) -> (r: Option<u64>)
    ensures
        r == spec_parse_u64(s@),
{
    let n = s.unicode_len();
    if n == 0 {
        return None;
    }
    let mut acc: u64 = 0;
    let mut i: usize = 0;
    proof {
        assert(s@.take(0) =~= Seq::<char>::empty());
    }
    while i < n
        invariant
            i <= n,
            n == s@.len(),
            all_digits(s@.take(i as int)),
            acc == digits_val(s@.take(i as int)),
        decreases n - i,
    {
        let c = s.get_char(i);
        let cu = c as u32;
        if cu < 48 || cu > 57 {
            proof {
                assert(!is_digit(s@[i as int]));
                assert(!all_digits(s@));
            }
            return None;
        }
        let d: u64 = (cu - 48) as u64;
        if acc > (u64::MAX - d) / 10 {
            proof {
                let t1 = s@.take(i + 1 as int);
                assert(t1.drop_last() =~= s@.take(i as int));
                assert(t1.last() == s@[i as int]);
                assert(all_digits(t1)) by {
                    assert(forall|k: int| 0 <= k < t1.len() ==> #[trigger] t1[k] == s@[k]);
                }
                assert(digits_val(t1) == acc * 10 + d);
                assert(acc * 10 + d > u64::MAX) by (nonlinear_arith)
                    requires
                        acc > (u64::MAX - d) / 10,
                        d <= 9,
                ;
                if all_digits(s@) {
                    lemma_digits_val_monotone(s@, i + 1, n as int);
                    assert(s@.take(n as int) =~= s@);
                    assert(digits_val(s@) > u64::MAX);
                }
            }
            return None;
        }
        proof {
            assert(acc * 10 + d <= u64::MAX) by (nonlinear_arith)
                requires
                    acc <= (u64::MAX - d) / 10,
                    d <= 9,
            ;
            let t1 = s@.take(i + 1 as int);
            assert(t1.drop_last() =~= s@.take(i as int));
            assert(t1.last() == s@[i as int]);
            assert(all_digits(t1)) by {
                assert(forall|k: int| 0 <= k < t1.len() ==> #[trigger] t1[k] == s@[k]);
            }
            assert(digits_val(t1) == acc * 10 + d);
        }
        acc = acc * 10 + d;
        i = i + 1;
    }
    proof {
        assert(s@.take(n as int) =~= s@);
        assert(spec_parse_u64(s@) == Some(acc));
    }
    Some(acc)
}

// ---------------------------------------------------------------------------
// Setting an option from a dotted string path
// ---------------------------------------------------------------------------

/// Whether this dotted path names a settable option and the value parses
/// for its type.
pub open spec fn spec_set_ok(p: Seq<char>, v: Seq<char>) -> bool {
    if p == "tokenizer.model"@ {
        true
    } else if p == "tokenizer.cache_dir"@ {
        true
    } else if p == "tokenizer.max_tokens"@ {
        spec_parse_u64(v) is Some && spec_parse_u64(v)->Some_0 <= usize::MAX as u64
    } else if p == "tokenizer.chunk_size"@ {
        spec_parse_u64(v) is Some && spec_parse_u64(v)->Some_0 <= usize::MAX as u64
    } else if p == "tokenizer.batch_size"@ {
        spec_parse_u64(v) is Some && spec_parse_u64(v)->Some_0 <= usize::MAX as u64
    } else if p == "tokenizer.timeout"@ {
        spec_parse_u64(v) is Some
    } else if p == "network.max_retries"@ {
        spec_parse_u64(v) is Some && spec_parse_u64(v)->Some_0 <= u32::MAX as u64
    } else if p == "network.connect_timeout"@ {
        spec_parse_u64(v) is Some
    } else if p == "network.request_timeout"@ {
        spec_parse_u64(v) is Some
    } else if p == "network.max_download_size"@ {
        spec_parse_u64(v) is Some
    } else if p == "cache.enabled"@ {
        v == "true"@ || v == "false"@
    } else if p == "cache.ttl"@ {
        spec_parse_u64(v) is Some
    } else if p == "cache.max_size"@ {
        spec_parse_u64(v) is Some
    } else if p == "cache.path"@ {
        true
    } else if p == "performance.worker_threads"@ {
        spec_parse_u64(v) is Some && spec_parse_u64(v)->Some_0 <= usize::MAX as u64
    } else if p == "performance.channel_capacity"@ {
        spec_parse_u64(v) is Some && spec_parse_u64(v)->Some_0 <= usize::MAX as u64
    } else if p == "performance.debounce_ms"@ {
        spec_parse_u64(v) is Some
    } else if p == "performance.max_memory_mb"@ {
        spec_parse_u64(v) is Some
    } else if p == "logging.level"@ {
        true
    } else if p == "logging.file"@ {
        true
    } else if p == "logging.max_files"@ {
        spec_parse_u64(v) is Some && spec_parse_u64(v)->Some_0 <= usize::MAX as u64
    } else if p == "logging.max_size_mb"@ {
        spec_parse_u64(v) is Some
    } else {
        false
    }
}

/// The effect of setting `tokenizer.model`: that field takes the value and
/// everything else is unchanged.
pub open spec fn set_tokenizer_model(c: Config, o: Config, v: Seq<char>) -> bool {
    &&& c.network == o.network
    &&& c.cache == o.cache
    &&& c.performance == o.performance
    &&& c.logging == o.logging
    &&& c.tokenizer.cache_dir == o.tokenizer.cache_dir
    &&& c.tokenizer.max_tokens == o.tokenizer.max_tokens
    &&& c.tokenizer.chunk_size == o.tokenizer.chunk_size
    &&& c.tokenizer.batch_size == o.tokenizer.batch_size
    &&& c.tokenizer.timeout == o.tokenizer.timeout
    &&& c.tokenizer.model@ == v
}

/// The effect of setting `tokenizer.cache_dir`: that field takes the value and
/// everything else is unchanged.
pub open spec fn set_tokenizer_cache_dir(c: Config, o: Config, v: Seq<char>) -> bool {
    &&& c.network == o.network
    &&& c.cache == o.cache
    &&& c.performance == o.performance
    &&& c.logging == o.logging
    &&& c.tokenizer.model == o.tokenizer.model
    &&& c.tokenizer.max_tokens == o.tokenizer.max_tokens
    &&& c.tokenizer.chunk_size == o.tokenizer.chunk_size
    &&& c.tokenizer.batch_size == o.tokenizer.batch_size
    &&& c.tokenizer.timeout == o.tokenizer.timeout
    &&& c.tokenizer.cache_dir@ == v
}

/// The effect of setting `tokenizer.max_tokens`: that field takes the value and
/// everything else is unchanged.
pub open spec fn set_tokenizer_max_tokens(c: Config, o: Config, v: Seq<char>) -> bool {
    &&& c.network == o.network
    &&& c.cache == o.cache
    &&& c.performance == o.performance
    &&& c.logging == o.logging
    &&& c.tokenizer.model == o.tokenizer.model
    &&& c.tokenizer.cache_dir == o.tokenizer.cache_dir
    &&& c.tokenizer.chunk_size == o.tokenizer.chunk_size
    &&& c.tokenizer.batch_size == o.tokenizer.batch_size
    &&& c.tokenizer.timeout == o.tokenizer.timeout
    &&& c.tokenizer.max_tokens as u64 == spec_parse_u64(v)->Some_0
}

/// The effect of setting `tokenizer.chunk_size`: that field takes the value and
/// everything else is unchanged.
pub open spec fn set_tokenizer_chunk_size(c: Config, o: Config, v: Seq<char>) -> bool {
    &&& c.network == o.network
    &&& c.cache == o.cache
    &&& c.performance == o.performance
    &&& c.logging == o.logging
    &&& c.tokenizer.model == o.tokenizer.model
    &&& c.tokenizer.cache_dir == o.tokenizer.cache_dir
    &&& c.tokenizer.max_tokens == o.tokenizer.max_tokens
    &&& c.tokenizer.batch_size == o.tokenizer.batch_size
    &&& c.tokenizer.timeout == o.tokenizer.timeout
    &&& c.tokenizer.chunk_size as u64 == spec_parse_u64(v)->Some_0
}

/// The effect of setting `tokenizer.batch_size`: that field takes the value and
/// everything else is unchanged.
pub open spec fn set_tokenizer_batch_size(c: Config, o: Config, v: Seq<char>) -> bool {
    &&& c.network == o.network
    &&& c.cache == o.cache
    &&& c.performance == o.performance
    &&& c.logging == o.logging
    &&& c.tokenizer.model == o.tokenizer.model
    &&& c.tokenizer.cache_dir == o.tokenizer.cache_dir
    &&& c.tokenizer.max_tokens == o.tokenizer.max_tokens
    &&& c.tokenizer.chunk_size == o.tokenizer.chunk_size
    &&& c.tokenizer.timeout == o.tokenizer.timeout
    &&& c.tokenizer.batch_size as u64 == spec_parse_u64(v)->Some_0
}

/// The effect of setting `tokenizer.timeout`: that field takes the value and
/// everything else is unchanged.
pub open spec fn set_tokenizer_timeout(c: Config, o: Config, v: Seq<char>) -> bool {
    &&& c.network == o.network
    &&& c.cache == o.cache
    &&& c.performance == o.performance
    &&& c.logging == o.logging
    &&& c.tokenizer.model == o.tokenizer.model
    &&& c.tokenizer.cache_dir == o.tokenizer.cache_dir
    &&& c.tokenizer.max_tokens == o.tokenizer.max_tokens
    &&& c.tokenizer.chunk_size == o.tokenizer.chunk_size
    &&& c.tokenizer.batch_size == o.tokenizer.batch_size
    &&& c.tokenizer.timeout == spec_parse_u64(v)->Some_0
}

/// The effect of setting `network.max_retries`: that field takes the value and
/// everything else is unchanged.
pub open spec fn set_network_max_retries(c: Config, o: Config, v: Seq<char>) -> bool {
    &&& c.tokenizer == o.tokenizer
    &&& c.cache == o.cache
    &&& c.performance == o.performance
    &&& c.logging == o.logging
    &&& c.network.connect_timeout == o.network.connect_timeout
    &&& c.network.request_timeout == o.network.request_timeout
    &&& c.network.allowed_domains == o.network.allowed_domains
    &&& c.network.max_download_size == o.network.max_download_size
    &&& c.network.max_retries as u64 == spec_parse_u64(v)->Some_0
}

/// The effect of setting `network.connect_timeout`: that field takes the value and
/// everything else is unchanged.
pub open spec fn set_network_connect_timeout(c: Config, o: Config, v: Seq<char>) -> bool {
    &&& c.tokenizer == o.tokenizer
    &&& c.cache == o.cache
    &&& c.performance == o.performance
    &&& c.logging == o.logging
    &&& c.network.max_retries == o.network.max_retries
    &&& c.network.request_timeout == o.network.request_timeout
    &&& c.network.allowed_domains == o.network.allowed_domains
    &&& c.network.max_download_size == o.network.max_download_size
    &&& c.network.connect_timeout == spec_parse_u64(v)->Some_0
}

/// The effect of setting `network.request_timeout`: that field takes the value and
/// everything else is unchanged.
pub open spec fn set_network_request_timeout(c: Config, o: Config, v: Seq<char>) -> bool {
    &&& c.tokenizer == o.tokenizer
    &&& c.cache == o.cache
    &&& c.performance == o.performance
    &&& c.logging == o.logging
    &&& c.network.max_retries == o.network.max_retries
    &&& c.network.connect_timeout == o.network.connect_timeout
    &&& c.network.allowed_domains == o.network.allowed_domains
    &&& c.network.max_download_size == o.network.max_download_size
    &&& c.network.request_timeout == spec_parse_u64(v)->Some_0
}

/// The effect of setting `network.max_download_size`: that field takes the value and
/// everything else is unchanged.
pub open spec fn set_network_max_download_size(c: Config, o: Config, v: Seq<char>) -> bool {
    &&& c.tokenizer == o.tokenizer
    &&& c.cache == o.cache
    &&& c.performance == o.performance
    &&& c.logging == o.logging
    &&& c.network.max_retries == o.network.max_retries
    &&& c.network.connect_timeout == o.network.connect_timeout
    &&& c.network.request_timeout == o.network.request_timeout
    &&& c.network.allowed_domains == o.network.allowed_domains
    &&& c.network.max_download_size == spec_parse_u64(v)->Some_0
}

/// The effect of setting `cache.enabled`: that field takes the value and
/// everything else is unchanged.
pub open spec fn set_cache_enabled(c: Config, o: Config, v: Seq<char>) -> bool {
    &&& c.tokenizer == o.tokenizer
    &&& c.network == o.network
    &&& c.performance == o.performance
    &&& c.logging == o.logging
    &&& c.cache.ttl == o.cache.ttl
    &&& c.cache.max_size == o.cache.max_size
    &&& c.cache.path == o.cache.path
    &&& c.cache.enabled == (v == "true"@)
}

/// The effect of setting `cache.ttl`: that field takes the value and
/// everything else is unchanged.
pub open spec fn set_cache_ttl(c: Config, o: Config, v: Seq<char>) -> bool {
    &&& c.tokenizer == o.tokenizer
    &&& c.network == o.network
    &&& c.performance == o.performance
    &&& c.logging == o.logging
    &&& c.cache.enabled == o.cache.enabled
    &&& c.cache.max_size == o.cache.max_size
    &&& c.cache.path == o.cache.path
    &&& c.cache.ttl == spec_parse_u64(v)->Some_0
}

/// The effect of setting `cache.max_size`: that field takes the value and
/// everything else is unchanged.
pub open spec fn set_cache_max_size(c: Config, o: Config, v: Seq<char>) -> bool {
    &&& c.tokenizer == o.tokenizer
    &&& c.network == o.network
    &&& c.performance == o.performance
    &&& c.logging == o.logging
    &&& c.cache.enabled == o.cache.enabled
    &&& c.cache.ttl == o.cache.ttl
    &&& c.cache.path == o.cache.path
    &&& c.cache.max_size == spec_parse_u64(v)->Some_0
}

/// The effect of setting `cache.path`: that field takes the value and
/// everything else is unchanged.
pub open spec fn set_cache_path(c: Config, o: Config, v: Seq<char>) -> bool {
    &&& c.tokenizer == o.tokenizer
    &&& c.network == o.network
    &&& c.performance == o.performance
    &&& c.logging == o.logging
    &&& c.cache.enabled == o.cache.enabled
    &&& c.cache.ttl == o.cache.ttl
    &&& c.cache.max_size == o.cache.max_size
    &&& c.cache.path@ == v
}

/// The effect of setting `performance.worker_threads`: that field takes the value and
/// everything else is unchanged.
pub open spec fn set_performance_worker_threads(c: Config, o: Config, v: Seq<char>) -> bool {
    &&& c.tokenizer == o.tokenizer
    &&& c.network == o.network
    &&& c.cache == o.cache
    &&& c.logging == o.logging
    &&& c.performance.channel_capacity == o.performance.channel_capacity
    &&& c.performance.debounce_ms == o.performance.debounce_ms
    &&& c.performance.max_memory_mb == o.performance.max_memory_mb
    &&& c.performance.worker_threads as u64 == spec_parse_u64(v)->Some_0
}

/// The effect of setting `performance.channel_capacity`: that field takes the value and
/// everything else is unchanged.
pub open spec fn set_performance_channel_capacity(c: Config, o: Config, v: Seq<char>) -> bool {
    &&& c.tokenizer == o.tokenizer
    &&& c.network == o.network
    &&& c.cache == o.cache
    &&& c.logging == o.logging
    &&& c.performance.worker_threads == o.performance.worker_threads
    &&& c.performance.debounce_ms == o.performance.debounce_ms
    &&& c.performance.max_memory_mb == o.performance.max_memory_mb
    &&& c.performance.channel_capacity as u64 == spec_parse_u64(v)->Some_0
}

/// The effect of setting `performance.debounce_ms`: that field takes the value and
/// everything else is unchanged.
pub open spec fn set_performance_debounce_ms(c: Config, o: Config, v: Seq<char>) -> bool {
    &&& c.tokenizer == o.tokenizer
    &&& c.network == o.network
    &&& c.cache == o.cache
    &&& c.logging == o.logging
    &&& c.performance.worker_threads == o.performance.worker_threads
    &&& c.performance.channel_capacity == o.performance.channel_capacity
    &&& c.performance.max_memory_mb == o.performance.max_memory_mb
    &&& c.performance.debounce_ms == spec_parse_u64(v)->Some_0
}

/// The effect of setting `performance.max_memory_mb`: that field takes the value and
/// everything else is unchanged.
pub open spec fn set_performance_max_memory_mb(c: Config, o: Config, v: Seq<char>) -> bool {
    &&& c.tokenizer == o.tokenizer
    &&& c.network == o.network
    &&& c.cache == o.cache
    &&& c.logging == o.logging
    &&& c.performance.worker_threads == o.performance.worker_threads
    &&& c.performance.channel_capacity == o.performance.channel_capacity
    &&& c.performance.debounce_ms == o.performance.debounce_ms
    &&& c.performance.max_memory_mb == spec_parse_u64(v)->Some_0
}

/// The effect of setting `logging.level`: that field takes the value and
/// everything else is unchanged.
pub open spec fn set_logging_level(c: Config, o: Config, v: Seq<char>) -> bool {
    &&& c.tokenizer == o.tokenizer
    &&& c.network == o.network
    &&& c.cache == o.cache
    &&& c.performance == o.performance
    &&& c.logging.file == o.logging.file
    &&& c.logging.max_files == o.logging.max_files
    &&& c.logging.max_size_mb == o.logging.max_size_mb
    &&& c.logging.level@ == v
}

/// The effect of setting `logging.file`: that field takes the value and
/// everything else is unchanged.
pub open spec fn set_logging_file(c: Config, o: Config, v: Seq<char>) -> bool {
    &&& c.tokenizer == o.tokenizer
    &&& c.network == o.network
    &&& c.cache == o.cache
    &&& c.performance == o.performance
    &&& c.logging.level == o.logging.level
    &&& c.logging.max_files == o.logging.max_files
    &&& c.logging.max_size_mb == o.logging.max_size_mb
    &&& c.logging.file is Some && c.logging.file->Some_0@ == v
}

/// The effect of setting `logging.max_files`: that field takes the value and
/// everything else is unchanged.
pub open spec fn set_logging_max_files(c: Config, o: Config, v: Seq<char>) -> bool {
    &&& c.tokenizer == o.tokenizer
    &&& c.network == o.network
    &&& c.cache == o.cache
    &&& c.performance == o.performance
    &&& c.logging.level == o.logging.level
    &&& c.logging.file == o.logging.file
    &&& c.logging.max_size_mb == o.logging.max_size_mb
    &&& c.logging.max_files as u64 == spec_parse_u64(v)->Some_0
}

/// The effect of setting `logging.max_size_mb`: that field takes the value and
/// everything else is unchanged.
pub open spec fn set_logging_max_size_mb(c: Config, o: Config, v: Seq<char>) -> bool {
    &&& c.tokenizer == o.tokenizer
    &&& c.network == o.network
    &&& c.cache == o.cache
    &&& c.performance == o.performance
    &&& c.logging.level == o.logging.level
    &&& c.logging.file == o.logging.file
    &&& c.logging.max_files == o.logging.max_files
    &&& c.logging.max_size_mb == spec_parse_u64(v)->Some_0
}

/// The effect of one successful set: the field addressed by the path
/// takes the value and every other field keeps its old value.
pub open spec fn spec_set_effect(o: Config, path: Seq<char>, value: Seq<char>, c: Config) -> bool {
    if path == "tokenizer.model"@ {
        set_tokenizer_model(c, o, value)
    } else if path == "tokenizer.cache_dir"@ {
        set_tokenizer_cache_dir(c, o, value)
    } else if path == "tokenizer.max_tokens"@ {
        set_tokenizer_max_tokens(c, o, value)
    } else if path == "tokenizer.chunk_size"@ {
        set_tokenizer_chunk_size(c, o, value)
    } else if path == "tokenizer.batch_size"@ {
        set_tokenizer_batch_size(c, o, value)
    } else if path == "tokenizer.timeout"@ {
        set_tokenizer_timeout(c, o, value)
    } else if path == "network.max_retries"@ {
        set_network_max_retries(c, o, value)
    } else if path == "network.connect_timeout"@ {
        set_network_connect_timeout(c, o, value)
    } else if path == "network.request_timeout"@ {
        set_network_request_timeout(c, o, value)
    } else if path == "network.max_download_size"@ {
        set_network_max_download_size(c, o, value)
    } else if path == "cache.enabled"@ {
        set_cache_enabled(c, o, value)
    } else if path == "cache.ttl"@ {
        set_cache_ttl(c, o, value)
    } else if path == "cache.max_size"@ {
        set_cache_max_size(c, o, value)
    } else if path == "cache.path"@ {
        set_cache_path(c, o, value)
    } else if path == "performance.worker_threads"@ {
        set_performance_worker_threads(c, o, value)
    } else if path == "performance.channel_capacity"@ {
        set_performance_channel_capacity(c, o, value)
    } else if path == "performance.debounce_ms"@ {
        set_performance_debounce_ms(c, o, value)
    } else if path == "performance.max_memory_mb"@ {
        set_performance_max_memory_mb(c, o, value)
    } else if path == "logging.level"@ {
        set_logging_level(c, o, value)
    } else if path == "logging.file"@ {
        set_logging_file(c, o, value)
    } else if path == "logging.max_files"@ {
        set_logging_max_files(c, o, value)
    } else if path == "logging.max_size_mb"@ {
        set_logging_max_size_mb(c, o, value)
    } else {
        false
    }
}

impl Config {
    /// Set a configuration value from a dotted string path.  Exactly the
    /// known paths with a parseable value succeed; on failure nothing
    /// changes.  A value is parsed by the target field's type — a boolean
    /// word for a boolean option, a decimal integer for a numeric one, and
    /// any text for a string-typed option — rather than coerced through a
    /// guessed type, so a string option accepts texts such as "true" or
    /// "123" as ordinary values.
    pub fn set_from_str(&mut self, path: &str, value: &str) -> (r: Result<(), ConfigError>)
        ensures
            r is Ok <==> spec_set_ok(path@, value@),
            r is Ok ==> spec_set_effect(*old(self), path@, value@, *final(self)),
            r is Err ==> *final(self) == *old(self),
            r is Err ==> (r->Err_0 matches ConfigError::InvalidPath(p) && p@ == path@)
                || (r->Err_0 matches ConfigError::InvalidValue(v) && v@ == value@),
            r is Ok && path@ == "tokenizer.model"@ ==> set_tokenizer_model(*final(self), *old(self), value@),
            r is Ok && path@ == "tokenizer.cache_dir"@ ==> set_tokenizer_cache_dir(*final(self), *old(self), value@),
            r is Ok && path@ == "tokenizer.max_tokens"@ ==> set_tokenizer_max_tokens(*final(self), *old(self), value@),
            r is Ok && path@ == "tokenizer.chunk_size"@ ==> set_tokenizer_chunk_size(*final(self), *old(self), value@),
            r is Ok && path@ == "tokenizer.batch_size"@ ==> set_tokenizer_batch_size(*final(self), *old(self), value@),
            r is Ok && path@ == "tokenizer.timeout"@ ==> set_tokenizer_timeout(*final(self), *old(self), value@),
            r is Ok && path@ == "network.max_retries"@ ==> set_network_max_retries(*final(self), *old(self), value@),
            r is Ok && path@ == "network.connect_timeout"@ ==> set_network_connect_timeout(*final(self), *old(self), value@),
            r is Ok && path@ == "network.request_timeout"@ ==> set_network_request_timeout(*final(self), *old(self), value@),
            r is Ok && path@ == "network.max_download_size"@ ==> set_network_max_download_size(*final(self), *old(self), value@),
            r is Ok && path@ == "cache.enabled"@ ==> set_cache_enabled(*final(self), *old(self), value@),
            r is Ok && path@ == "cache.ttl"@ ==> set_cache_ttl(*final(self), *old(self), value@),
            r is Ok && path@ == "cache.max_size"@ ==> set_cache_max_size(*final(self), *old(self), value@),
            r is Ok && path@ == "cache.path"@ ==> set_cache_path(*final(self), *old(self), value@),
            r is Ok && path@ == "performance.worker_threads"@ ==> set_performance_worker_threads(*final(self), *old(self), value@),
            r is Ok && path@ == "performance.channel_capacity"@ ==> set_performance_channel_capacity(*final(self), *old(self), value@),
            r is Ok && path@ == "performance.debounce_ms"@ ==> set_performance_debounce_ms(*final(self), *old(self), value@),
            r is Ok && path@ == "performance.max_memory_mb"@ ==> set_performance_max_memory_mb(*final(self), *old(self), value@),
            r is Ok && path@ == "logging.level"@ ==> set_logging_level(*final(self), *old(self), value@),
            r is Ok && path@ == "logging.file"@ ==> set_logging_file(*final(self), *old(self), value@),
            r is Ok && path@ == "logging.max_files"@ ==> set_logging_max_files(*final(self), *old(self), value@),
            r is Ok && path@ == "logging.max_size_mb"@ ==> set_logging_max_size_mb(*final(self), *old(self), value@),
    {
        proof {
            broadcast use vstd::string::group_string_axioms;

            reveal_strlit("tokenizer.model");
            reveal_strlit("tokenizer.cache_dir");
            reveal_strlit("tokenizer.max_tokens");
            reveal_strlit("tokenizer.chunk_size");
            reveal_strlit("tokenizer.batch_size");
            reveal_strlit("tokenizer.timeout");
            reveal_strlit("network.max_retries");
            reveal_strlit("network.connect_timeout");
            reveal_strlit("network.request_timeout");
            reveal_strlit("network.max_download_size");
            reveal_strlit("cache.enabled");
            reveal_strlit("cache.ttl");
            reveal_strlit("cache.max_size");
            reveal_strlit("cache.path");
            reveal_strlit("performance.worker_threads");
            reveal_strlit("performance.channel_capacity");
            reveal_strlit("performance.debounce_ms");
            reveal_strlit("performance.max_memory_mb");
            reveal_strlit("logging.level");
            reveal_strlit("logging.file");
            reveal_strlit("logging.max_files");
            reveal_strlit("logging.max_size_mb");
            assert("tokenizer.model"@.len() == 15);
            assert("tokenizer.cache_dir"@.len() == 19);
            assert("tokenizer.max_tokens"@.len() == 20);
            assert("tokenizer.chunk_size"@.len() == 20);
            assert("tokenizer.batch_size"@.len() == 20);
            assert("tokenizer.timeout"@.len() == 17);
            assert("network.max_retries"@.len() == 19);
            assert("network.connect_timeout"@.len() == 23);
            assert("network.request_timeout"@.len() == 23);
            assert("network.max_download_size"@.len() == 25);
            assert("cache.enabled"@.len() == 13);
            assert("cache.ttl"@.len() == 9);
            assert("cache.max_size"@.len() == 14);
            assert("cache.path"@.len() == 10);
            assert("performance.worker_threads"@.len() == 26);
            assert("performance.channel_capacity"@.len() == 28);
            assert("performance.debounce_ms"@.len() == 23);
            assert("performance.max_memory_mb"@.len() == 25);
            assert("logging.level"@.len() == 13);
            assert("logging.file"@.len() == 12);
            assert("logging.max_files"@.len() == 17);
            assert("logging.max_size_mb"@.len() == 19);
            assert("tokenizer.max_tokens"@[10] != "tokenizer.chunk_size"@[10]);
            assert("tokenizer.max_tokens"@[10] != "tokenizer.batch_size"@[10]);
            assert("tokenizer.chunk_size"@[10] != "tokenizer.batch_size"@[10]);
            assert("tokenizer.cache_dir"@[0] != "network.max_retries"@[0]);
            assert("tokenizer.cache_dir"@[0] != "logging.max_size_mb"@[0]);
            assert("network.max_retries"@[0] != "logging.max_size_mb"@[0]);
            assert("network.connect_timeout"@[8] != "network.request_timeout"@[8]);
            assert("cache.enabled"@[0] != "logging.level"@[0]);
            assert("tokenizer.timeout"@[0] != "logging.max_files"@[0]);
            assert("network.max_download_size"@[0] != "performance.max_memory_mb"@[0]);
        }
        if str_eq(path, "tokenizer.model") {
            self.tokenizer.model = value.to_owned();
            Ok(())
        } else if str_eq(path, "tokenizer.cache_dir") {
            self.tokenizer.cache_dir = value.to_owned();
            Ok(())
        } else if str_eq(path, "tokenizer.max_tokens") {
            match parse_u64(value) {
                Some(n) => {
                    if n <= usize::MAX as u64 {
                        self.tokenizer.max_tokens = n as usize;
                        Ok(())
                    } else {
                        Err(ConfigError::InvalidValue(value.to_owned()))
                    }
                },
                None => Err(ConfigError::InvalidValue(value.to_owned())),
            }
        } else if str_eq(path, "tokenizer.chunk_size") {
            match parse_u64(value) {
                Some(n) => {
                    if n <= usize::MAX as u64 {
                        self.tokenizer.chunk_size = n as usize;
                        Ok(())
                    } else {
                        Err(ConfigError::InvalidValue(value.to_owned()))
                    }
                },
                None => Err(ConfigError::InvalidValue(value.to_owned())),
            }
        } else if str_eq(path, "tokenizer.batch_size") {
            match parse_u64(value) {
                Some(n) => {
                    if n <= usize::MAX as u64 {
                        self.tokenizer.batch_size = n as usize;
                        Ok(())
                    } else {
                        Err(ConfigError::InvalidValue(value.to_owned()))
                    }
                },
                None => Err(ConfigError::InvalidValue(value.to_owned())),
            }
        } else if str_eq(path, "tokenizer.timeout") {
            match parse_u64(value) {
                Some(n) => {
                    self.tokenizer.timeout = n;
                    Ok(())
                },
                None => Err(ConfigError::InvalidValue(value.to_owned())),
            }
        } else if str_eq(path, "network.max_retries") {
            match parse_u64(value) {
                Some(n) => {
                    if n <= u32::MAX as u64 {
                        self.network.max_retries = n as u32;
                        Ok(())
                    } else {
                        Err(ConfigError::InvalidValue(value.to_owned()))
                    }
                },
                None => Err(ConfigError::InvalidValue(value.to_owned())),
            }
        } else if str_eq(path, "network.connect_timeout") {
            match parse_u64(value) {
                Some(n) => {
                    self.network.connect_timeout = n;
                    Ok(())
                },
                None => Err(ConfigError::InvalidValue(value.to_owned())),
            }
        } else if str_eq(path, "network.request_timeout") {
            match parse_u64(value) {
                Some(n) => {
                    self.network.request_timeout = n;
                    Ok(())
                },
                None => Err(ConfigError::InvalidValue(value.to_owned())),
            }
        } else if str_eq(path, "network.max_download_size") {
            match parse_u64(value) {
                Some(n) => {
                    self.network.max_download_size = n;
                    Ok(())
                },
                None => Err(ConfigError::InvalidValue(value.to_owned())),
            }
        } else if str_eq(path, "cache.enabled") {
            if str_eq(value, "true") {
                self.cache.enabled = true;
                Ok(())
            } else if str_eq(value, "false") {
                self.cache.enabled = false;
                Ok(())
            } else {
                Err(ConfigError::InvalidValue(value.to_owned()))
            }
        } else if str_eq(path, "cache.ttl") {
            match parse_u64(value) {
                Some(n) => {
                    self.cache.ttl = n;
                    Ok(())
                },
                None => Err(ConfigError::InvalidValue(value.to_owned())),
            }
        } else if str_eq(path, "cache.max_size") {
            match parse_u64(value) {
                Some(n) => {
                    self.cache.max_size = n;
                    Ok(())
                },
                None => Err(ConfigError::InvalidValue(value.to_owned())),
            }
        } else if str_eq(path, "cache.path") {
            self.cache.path = value.to_owned();
            Ok(())
        } else if str_eq(path, "performance.worker_threads") {
            match parse_u64(value) {
                Some(n) => {
                    if n <= usize::MAX as u64 {
                        self.performance.worker_threads = n as usize;
                        Ok(())
                    } else {
                        Err(ConfigError::InvalidValue(value.to_owned()))
                    }
                },
                None => Err(ConfigError::InvalidValue(value.to_owned())),
            }
        } else if str_eq(path, "performance.channel_capacity") {
            match parse_u64(value) {
                Some(n) => {
                    if n <= usize::MAX as u64 {
                        self.performance.channel_capacity = n as usize;
                        Ok(())
                    } else {
                        Err(ConfigError::InvalidValue(value.to_owned()))
                    }
                },
                None => Err(ConfigError::InvalidValue(value.to_owned())),
            }
        } else if str_eq(path, "performance.debounce_ms") {
            match parse_u64(value) {
                Some(n) => {
                    self.performance.debounce_ms = n;
                    Ok(())
                },
                None => Err(ConfigError::InvalidValue(value.to_owned())),
            }
        } else if str_eq(path, "performance.max_memory_mb") {
            match parse_u64(value) {
                Some(n) => {
                    self.performance.max_memory_mb = n;
                    Ok(())
                },
                None => Err(ConfigError::InvalidValue(value.to_owned())),
            }
        } else if str_eq(path, "logging.level") {
            self.logging.level = value.to_owned();
            Ok(())
        } else if str_eq(path, "logging.file") {
            self.logging.file = Some(value.to_owned());
            Ok(())
        } else if str_eq(path, "logging.max_files") {
            match parse_u64(value) {
                Some(n) => {
                    if n <= usize::MAX as u64 {
                        self.logging.max_files = n as usize;
                        Ok(())
                    } else {
                        Err(ConfigError::InvalidValue(value.to_owned()))
                    }
                },
                None => Err(ConfigError::InvalidValue(value.to_owned())),
            }
        } else if str_eq(path, "logging.max_size_mb") {
            match parse_u64(value) {
                Some(n) => {
                    self.logging.max_size_mb = n;
                    Ok(())
                },
                None => Err(ConfigError::InvalidValue(value.to_owned())),
            }
        } else {
            Err(ConfigError::InvalidPath(path.to_owned()))
        }
    }
}

} // verus!

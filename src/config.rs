use vstd::prelude::*;
use vstd::string::StringExecFns;
use crate::types::{Environment, LogLevel};

verus! {

pub const DEFAULT_BASE_URL: &'static str = "https://timberlogs-ingest.enaboapps.workers.dev";
pub const DEFAULT_BATCH_SIZE: usize = 10;
pub const DEFAULT_FLUSH_INTERVAL_MS: u64 = 5000;
pub const DEFAULT_MAX_RETRIES: u32 = 3;
pub const DEFAULT_INITIAL_DELAY_MS: u64 = 1000;
pub const DEFAULT_MAX_DELAY_MS: u64 = 30000;

/// Retry policy of a batch send: `max_retries` attempts after the first,
/// waiting `initial_delay_ms` first and doubling up to `max_delay_ms`.
#[derive(Debug, Clone, Copy, PartialEq, Eq, Structural)]
pub struct RetryConfig {
    pub max_retries: u32,
    pub initial_delay_ms: u64,
    pub max_delay_ms: u64,
}

impl Default for RetryConfig {
    fn default() -> (r: Self)
        ensures
            r.max_retries == DEFAULT_MAX_RETRIES,
            r.initial_delay_ms == DEFAULT_INITIAL_DELAY_MS,
            r.max_delay_ms == DEFAULT_MAX_DELAY_MS,
    {
        RetryConfig {
            max_retries: DEFAULT_MAX_RETRIES,
            initial_delay_ms: DEFAULT_INITIAL_DELAY_MS,
            max_delay_ms: DEFAULT_MAX_DELAY_MS,
        }
    }
}

/// Options a client is created with; unset options take their defaults.
pub struct TimberlogsConfig {
    pub source: String,
    pub environment: Environment,
    pub api_key: String,
    pub version: Option<String>,
    pub user_id: Option<String>,
    pub session_id: Option<String>,
    pub dataset: Option<String>,
    pub batch_size: Option<usize>,
    pub flush_interval_ms: Option<u64>,
    pub min_level: Option<LogLevel>,
    pub retry: Option<RetryConfig>,
    pub base_url: Option<String>,
}

impl Default for TimberlogsConfig {
    fn default() -> (r: Self)
        ensures
            r.source@.len() == 0,
            r.environment == Environment::Development,
            r.api_key@.len() == 0,
            r.version is None,
            r.user_id is None,
            r.session_id is None,
            r.dataset is None,
            r.batch_size is None,
            r.flush_interval_ms is None,
            r.min_level is None,
            r.retry is None,
            r.base_url is None,
    {
        TimberlogsConfig {
            source: String::new(),
            environment: Environment::Development,
            api_key: String::new(),
            version: None,
            user_id: None,
            session_id: None,
            dataset: None,
            batch_size: None,
            flush_interval_ms: None,
            min_level: None,
            retry: None,
            base_url: None,
        }
    }
}

/// The fixed part of a client's configuration, with every default resolved.
pub struct ClientSettings {
    pub source: String,
    pub environment: Environment,
    pub api_key: String,
    pub version: Option<String>,
    pub dataset: Option<String>,
    pub batch_size: usize,
    pub flush_interval_ms: u64,
    pub min_level: LogLevel,
    pub retry: RetryConfig,
    pub base_url: String,
}

/// The caller-settable identity that records fall back on.
pub struct Overlay {
    pub user_id: Option<String>,
    pub session_id: Option<String>,
}

/// A size or period option: its default when unset, and at least one.
pub open spec fn resolved_count(o: Option<int>, default: int) -> int {
    match o {
        Some(n) => if n < 1 { 1 } else { n },
        None => default,
    }
}

impl ClientSettings {
    pub open spec fn wf(&self) -> bool {
        self.batch_size >= 1 && self.flush_interval_ms >= 1
    }

    /// Resolves the defaults of `config`. A batch size or flush period of zero
    /// is taken as one: a batch of one already flushes on every record.
    pub fn resolve(config: TimberlogsConfig) -> (r: (ClientSettings, Overlay))
        ensures
            r.0.wf(),
            r.0.source == config.source,
            r.0.environment == config.environment,
            r.0.api_key == config.api_key,
            r.0.version == config.version,
            r.0.dataset == config.dataset,
            r.0.batch_size as int == resolved_count(
                match config.batch_size { Some(n) => Some(n as int), None => None },
                DEFAULT_BATCH_SIZE as int,
            ),
            r.0.flush_interval_ms as int == resolved_count(
                match config.flush_interval_ms { Some(n) => Some(n as int), None => None },
                DEFAULT_FLUSH_INTERVAL_MS as int,
            ),
            r.0.min_level == (match config.min_level { Some(l) => l, None => LogLevel::Debug }),
            r.0.retry == (match config.retry {
                Some(p) => p,
                None => RetryConfig {
                    max_retries: DEFAULT_MAX_RETRIES,
                    initial_delay_ms: DEFAULT_INITIAL_DELAY_MS,
                    max_delay_ms: DEFAULT_MAX_DELAY_MS,
                },
            }),
            config.base_url is Some ==> r.0.base_url == config.base_url->0,
            config.base_url is None ==> r.0.base_url@ == DEFAULT_BASE_URL@,
            r.1.user_id == config.user_id,
            r.1.session_id == config.session_id,
    {
        let batch_size = match config.batch_size {
            Some(n) => if n < 1 { 1 } else { n },
            None => DEFAULT_BATCH_SIZE,
        };
        let flush_interval_ms = match config.flush_interval_ms {
            Some(n) => if n < 1 { 1 } else { n },
            None => DEFAULT_FLUSH_INTERVAL_MS,
        };
        let min_level = match config.min_level {
            Some(l) => l,
            None => LogLevel::Debug,
        };
        let retry = match config.retry {
            Some(p) => p,
            None => RetryConfig::default(),
        };
        let base_url = match config.base_url {
            Some(u) => u,
            None => String::from_str(DEFAULT_BASE_URL),
        };
        let settings = ClientSettings {
            source: config.source,
            environment: config.environment,
            api_key: config.api_key,
            version: config.version,
            dataset: config.dataset,
            batch_size,
            flush_interval_ms,
            min_level,
            retry,
            base_url,
        };
        (settings, Overlay { user_id: config.user_id, session_id: config.session_id })
    }

    /// URL of the batch ingestion endpoint.
    pub fn logs_endpoint(&self) -> (r: String)
        ensures
            r@ == self.base_url@ + "/v1/logs"@,
    {
        self.base_url.clone().concat("/v1/logs")
    }

    /// URL of the flow registration endpoint.
    pub fn flows_endpoint(&self) -> (r: String)
        ensures
            r@ == self.base_url@ + "/v1/flows"@,
    {
        self.base_url.clone().concat("/v1/flows")
    }
}

} // verus!

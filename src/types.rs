use vstd::prelude::*;
use std::collections::HashMap;

verus! {

/// Severity of a record, ordered `Debug < Info < Warn < Error`.
#[derive(Debug, Clone, Copy, PartialEq, Eq, Structural, PartialOrd, Ord, Hash)]
pub enum LogLevel {
    Debug,
    Info,
    Warn,
    Error,
}

/// Position of a level in the fixed severity order.
pub open spec fn level_rank(l: LogLevel) -> nat {
    match l {
        LogLevel::Debug => 0,
        LogLevel::Info => 1,
        LogLevel::Warn => 2,
        LogLevel::Error => 3,
    }
}

/// Lower-case wire name of a level.
pub open spec fn level_name(l: LogLevel) -> Seq<char> {
    match l {
        LogLevel::Debug => "debug"@,
        LogLevel::Info => "info"@,
        LogLevel::Warn => "warn"@,
        LogLevel::Error => "error"@,
    }
}

/// The levels are strictly ordered `Debug < Info < Warn < Error`: the rank
/// order is total, strict, and tells distinct levels apart.
pub proof fn lemma_level_order(a: LogLevel, b: LogLevel)
    ensures
        level_rank(LogLevel::Debug) < level_rank(LogLevel::Info),
        level_rank(LogLevel::Info) < level_rank(LogLevel::Warn),
        level_rank(LogLevel::Warn) < level_rank(LogLevel::Error),
        a == b <==> level_rank(a) == level_rank(b),
        level_rank(a) < level_rank(b) || level_rank(a) == level_rank(b) || level_rank(b) < level_rank(a),
        !(level_rank(a) < level_rank(b) && level_rank(b) < level_rank(a)),
{
}

impl LogLevel {
    pub fn rank(&self) -> (r: u8)
        ensures
            r as nat == level_rank(*self),
    {
        match self {
            LogLevel::Debug => 0,
            LogLevel::Info => 1,
            LogLevel::Warn => 2,
            LogLevel::Error => 3,
        }
    }

    /// Whether `self` is strictly less severe than `other`.
    pub fn is_below(&self, other: &LogLevel) -> (r: bool)
        ensures
            r == (level_rank(*self) < level_rank(*other)),
    {
        self.rank() < other.rank()
    }

    pub fn as_str(&self) -> (r: &'static str)
        ensures
            r@ == level_name(*self),
    {
        match self {
            LogLevel::Debug => "debug",
            LogLevel::Info => "info",
            LogLevel::Warn => "warn",
            LogLevel::Error => "error",
        }
    }
}

/// Deployment environment a client reports.
#[derive(Debug, Clone, Copy, PartialEq, Eq, Structural)]
pub enum Environment {
    Development,
    Staging,
    Production,
}

/// Lower-case wire name of an environment.
pub open spec fn environment_name(e: Environment) -> Seq<char> {
    match e {
        Environment::Development => "development"@,
        Environment::Staging => "staging"@,
        Environment::Production => "production"@,
    }
}

impl Environment {
    pub fn as_str(&self) -> (r: &'static str)
        ensures
            r@ == environment_name(*self),
    {
        match self {
            Environment::Development => "development",
            Environment::Staging => "staging",
            Environment::Production => "production",
        }
    }
}

/// Declared format of a pre-formatted payload sent through raw ingestion.
#[derive(Debug, Clone, Copy, PartialEq, Eq, Structural)]
pub enum RawFormat {
    Json,
    Jsonl,
    Syslog,
    Text,
    Csv,
    Obl,
}

/// Name of a raw format as it appears in the `format` query parameter.
pub open spec fn raw_format_name(f: RawFormat) -> Seq<char> {
    match f {
        RawFormat::Json => "json"@,
        RawFormat::Jsonl => "jsonl"@,
        RawFormat::Syslog => "syslog"@,
        RawFormat::Text => "text"@,
        RawFormat::Csv => "csv"@,
        RawFormat::Obl => "obl"@,
    }
}

/// Content type sent with a raw payload of the given format.
pub open spec fn raw_content_type(f: RawFormat) -> Seq<char> {
    match f {
        RawFormat::Json => "application/json"@,
        RawFormat::Jsonl => "application/x-ndjson"@,
        RawFormat::Syslog => "application/x-syslog"@,
        RawFormat::Text => "text/plain"@,
        RawFormat::Csv => "text/csv"@,
        RawFormat::Obl => "application/x-obl"@,
    }
}

impl RawFormat {
    pub fn as_str(&self) -> (r: &'static str)
        ensures
            r@ == raw_format_name(*self),
    {
        match self {
            RawFormat::Json => "json",
            RawFormat::Jsonl => "jsonl",
            RawFormat::Syslog => "syslog",
            RawFormat::Text => "text",
            RawFormat::Csv => "csv",
            RawFormat::Obl => "obl",
        }
    }

    pub fn content_type(&self) -> (r: &'static str)
        ensures
            r@ == raw_content_type(*self),
    {
        match self {
            RawFormat::Json => "application/json",
            RawFormat::Jsonl => "application/x-ndjson",
            RawFormat::Syslog => "application/x-syslog",
            RawFormat::Text => "text/plain",
            RawFormat::Csv => "text/csv",
            RawFormat::Obl => "application/x-obl",
        }
    }
}

/// Metadata overrides for a raw ingestion request.
pub struct IngestRawOptions {
    pub source: Option<String>,
    pub environment: Option<Environment>,
    pub level: Option<LogLevel>,
    pub dataset: Option<String>,
}

impl Default for IngestRawOptions {
    fn default() -> (r: Self)
        ensures
            r.source is None,
            r.environment is None,
            r.level is None,
            r.dataset is None,
    {
        IngestRawOptions { source: None, environment: None, level: None, dataset: None }
    }
}

/// A single log event as the caller hands it over.
pub struct LogEntry {
    pub level: LogLevel,
    pub message: String,
    pub data: Option<HashMap<String, serde_json::Value>>,
    pub user_id: Option<String>,
    pub session_id: Option<String>,
    pub request_id: Option<String>,
    pub error_name: Option<String>,
    pub error_stack: Option<String>,
    pub tags: Option<Vec<String>>,
    pub flow_id: Option<String>,
    pub step_index: Option<u32>,
    pub dataset: Option<String>,
    pub timestamp: Option<u64>,
    pub ip_address: Option<String>,
    pub country: Option<String>,
}

impl Default for LogEntry {
    /// An `Info` record with an empty message and every optional field unset.
    fn default() -> (r: Self)
        ensures
            r.level == LogLevel::Info,
            r.message@.len() == 0,
            r.data is None,
            r.user_id is None,
            r.session_id is None,
            r.request_id is None,
            r.error_name is None,
            r.error_stack is None,
            r.tags is None,
            r.flow_id is None,
            r.step_index is None,
            r.dataset is None,
            r.timestamp is None,
            r.ip_address is None,
            r.country is None,
    {
        LogEntry {
            level: LogLevel::Info,
            message: String::new(),
            data: None,
            user_id: None,
            session_id: None,
            request_id: None,
            error_name: None,
            error_stack: None,
            tags: None,
            flow_id: None,
            step_index: None,
            dataset: None,
            timestamp: None,
            ip_address: None,
            country: None,
        }
    }
}

} // verus!

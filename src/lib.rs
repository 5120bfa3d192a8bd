//! Client-side log shipping: records are filtered by level, validated,
//! merged with client context, queued, and delivered in batches with
//! retry and exponential backoff.
pub mod config;
pub mod error;
pub mod json;
pub mod queue;
pub mod record;
pub mod response;
pub mod retry;
pub mod text;
pub mod types;
pub mod validate;
pub mod wire;

pub use config::{ClientSettings, Overlay, RetryConfig, TimberlogsConfig};
pub use error::{TextField, TimberlogsError, ValidationError};
pub use queue::LogQueue;
pub use record::{Flow, OutboundRecord};
pub use response::{ack_outcome, check_status, classify_response, read_flow_answer, read_flow_response};
pub use retry::{AttemptOutcome, RetryState, RetryStep, backoff, is_success_status};
pub use text::decimal_string;
pub use types::{Environment, IngestRawOptions, LogEntry, LogLevel, RawFormat};
pub use validate::validate_entry;
pub use wire::{batch_payload, flow_request, raw_query};

use std::collections::HashMap;

use timberlogs::{
    AttemptOutcome, ClientSettings, Environment, IngestRawOptions, LogEntry, LogLevel, LogQueue,
    OutboundRecord, Overlay, RawFormat, RetryConfig, RetryState, RetryStep, TimberlogsConfig,
    TimberlogsError,
};

fn test_config(api_key: &str) -> TimberlogsConfig {
    TimberlogsConfig {
        source: "test".into(),
        environment: Environment::Development,
        api_key: api_key.into(),
        batch_size: Some(1),
        flush_interval_ms: Some(60000),
        ..Default::default()
    }
}

fn mock_config(api_key: &str, base_url: &str) -> TimberlogsConfig {
    TimberlogsConfig {
        base_url: Some(base_url.to_string()),
        retry: Some(RetryConfig {
            max_retries: 0,
            initial_delay_ms: 10,
            max_delay_ms: 10,
        }),
        ..test_config(api_key)
    }
}

fn log_through(config: TimberlogsConfig, entry: LogEntry) -> Result<Option<OutboundRecord>, TimberlogsError> {
    let (settings, overlay) = ClientSettings::resolve(config);
    settings.prepare_record(entry, &overlay)
}

/// Runs the retry engine over a scripted sequence of attempt outcomes, the
/// way the sender does; returns the result and the number of attempts.
fn run_sender(policy: RetryConfig, outcomes: Vec<AttemptOutcome>) -> (Result<(), TimberlogsError>, usize, Vec<u64>) {
    let mut state = RetryState::new(&policy);
    let mut waits = Vec::new();
    let mut attempts = 0;
    for outcome in outcomes {
        attempts += 1;
        match state.record(outcome) {
            RetryStep::Finished(r) => return (r, attempts, waits),
            RetryStep::Wait(ms) => waits.push(ms),
        }
    }
    panic!("the sender asked for more attempts than were scripted");
}

fn http(status: u16, body: &str) -> AttemptOutcome {
    AttemptOutcome::Http { status, body: body.to_string() }
}

// ── LogEntry defaults ──

#[test]
fn test_log_entry_defaults() {
    let entry = LogEntry::default();
    assert_eq!(entry.level, LogLevel::Info);
    assert!(entry.message.is_empty());
    assert!(entry.data.is_none());
    assert!(entry.tags.is_none());
    assert!(entry.user_id.is_none());
    assert!(entry.session_id.is_none());
    assert!(entry.request_id.is_none());
    assert!(entry.error_name.is_none());
    assert!(entry.error_stack.is_none());
    assert!(entry.flow_id.is_none());
    assert!(entry.step_index.is_none());
    assert!(entry.dataset.is_none());
    assert!(entry.timestamp.is_none());
    assert!(entry.ip_address.is_none());
    assert!(entry.country.is_none());
}

#[test]
fn test_log_entry_with_all_fields() {
    let entry = LogEntry {
        level: LogLevel::Error,
        message: "test error".into(),
        data: Some(HashMap::from([("key".into(), serde_json::Value::from("value"))])),
        user_id: Some("user_1".into()),
        session_id: Some("sess_1".into()),
        request_id: Some("req_1".into()),
        error_name: Some("TestError".into()),
        error_stack: Some("at main.rs:1".into()),
        tags: Some(vec!["tag1".into()]),
        flow_id: Some("flow_1".into()),
        step_index: Some(0),
        dataset: Some("test-dataset".into()),
        timestamp: Some(1700000000000),
        ip_address: Some("192.168.1.1".into()),
        country: Some("US".into()),
    };

    assert_eq!(entry.level, LogLevel::Error);
    assert_eq!(entry.user_id.as_deref(), Some("user_1"));
    assert_eq!(entry.timestamp, Some(1700000000000));
    assert_eq!(entry.ip_address.as_deref(), Some("192.168.1.1"));
    assert_eq!(entry.country.as_deref(), Some("US"));
}

// ── Config defaults ──

#[test]
fn test_config_defaults() {
    let config = TimberlogsConfig::default();
    assert!(config.source.is_empty());
    assert_eq!(config.environment, Environment::Development);
    assert!(config.api_key.is_empty());
    assert!(config.version.is_none());
    assert!(config.batch_size.is_none());
    assert!(config.flush_interval_ms.is_none());
    assert!(config.min_level.is_none());
    assert!(config.retry.is_none());
    assert!(config.base_url.is_none());
}

#[test]
fn resolved_settings_take_the_defaults() {
    let (settings, overlay) = ClientSettings::resolve(TimberlogsConfig::default());
    assert_eq!(settings.batch_size, 10);
    assert_eq!(settings.flush_interval_ms, 5000);
    assert_eq!(settings.min_level, LogLevel::Debug);
    assert_eq!(settings.retry, RetryConfig { max_retries: 3, initial_delay_ms: 1000, max_delay_ms: 30000 });
    assert_eq!(settings.logs_endpoint(), "https://timberlogs-ingest.enaboapps.workers.dev/v1/logs");
    assert_eq!(settings.flows_endpoint(), "https://timberlogs-ingest.enaboapps.workers.dev/v1/flows");
    assert!(overlay.user_id.is_none() && overlay.session_id.is_none());
}

#[test]
fn resolved_settings_keep_given_values() {
    let (settings, _) = ClientSettings::resolve(TimberlogsConfig {
        batch_size: Some(0),
        flush_interval_ms: Some(0),
        ..mock_config("tb_key", "http://127.0.0.1:9")
    });
    assert_eq!(settings.batch_size, 1);
    assert_eq!(settings.flush_interval_ms, 1);
    assert_eq!(settings.retry.max_retries, 0);
    assert_eq!(settings.logs_endpoint(), "http://127.0.0.1:9/v1/logs");
}

// ── Min level filtering ──

#[test]
fn test_min_level_filtering() {
    let (settings, overlay) = ClientSettings::resolve(TimberlogsConfig {
        min_level: Some(LogLevel::Warn),
        flush_interval_ms: Some(60000),
        ..test_config("tb_test_key")
    });
    let mut queue = LogQueue::new();

    // Below min_level: succeeds silently, nothing is queued, even when invalid.
    let entry = LogEntry { level: LogLevel::Debug, message: "should be filtered".into(), ..Default::default() };
    assert!(matches!(settings.enqueue_entry(&mut queue, entry, &overlay), Ok(false)));
    let entry = LogEntry { level: LogLevel::Info, message: "should be filtered".into(), ..Default::default() };
    assert!(matches!(settings.enqueue_entry(&mut queue, entry, &overlay), Ok(false)));
    let entry = LogEntry { level: LogLevel::Info, message: String::new(), ..Default::default() };
    assert!(matches!(settings.enqueue_entry(&mut queue, entry, &overlay), Ok(false)));
    assert_eq!(queue.len(), 0);
    assert!(queue.drain().is_none());
}

#[test]
fn test_min_level_allows_higher_levels() {
    let (settings, overlay) = ClientSettings::resolve(TimberlogsConfig {
        min_level: Some(LogLevel::Warn),
        flush_interval_ms: Some(60000),
        batch_size: Some(100),
        ..test_config("tb_test_key")
    });
    let mut queue = LogQueue::new();
    for (level, message) in [(LogLevel::Warn, "warning"), (LogLevel::Error, "error")] {
        let entry = LogEntry { level, message: message.into(), ..Default::default() };
        assert!(matches!(settings.enqueue_entry(&mut queue, entry, &overlay), Ok(false)));
    }
    assert_eq!(queue.len(), 2);
}

#[test]
fn invalid_entry_leaves_the_queue_alone() {
    let (settings, overlay) = ClientSettings::resolve(test_config("tb_test_key"));
    let mut queue = LogQueue::new();
    let entry = LogEntry { message: "x".repeat(10_001), ..Default::default() };
    let r = settings.enqueue_entry(&mut queue, entry, &overlay);
    assert!(matches!(r, Err(TimberlogsError::Validation(_))));
    assert_eq!(queue.len(), 0);
    // batch size one: every accepted record asks for a flush
    let entry = LogEntry { message: "ok".into(), ..Default::default() };
    assert!(matches!(settings.enqueue_entry(&mut queue, entry, &overlay), Ok(true)));
    assert_eq!(queue.len(), 1);
}

// ── Validation ──

fn validation_error(entry: LogEntry) -> String {
    let result = log_through(test_config("tb_test_key"), entry);
    assert!(result.is_err());
    result.err().unwrap().to_string()
}

fn is_accepted(entry: LogEntry) -> bool {
    matches!(log_through(TimberlogsConfig { batch_size: Some(100), ..test_config("tb_test_key") }, entry), Ok(Some(_)))
}

#[test]
fn test_validation_empty_message() {
    let err = validation_error(LogEntry { message: String::new(), ..Default::default() });
    assert!(err.contains("message must not be empty"));
}

#[test]
fn test_validation_message_too_long() {
    let err = validation_error(LogEntry { message: "x".repeat(10_001), ..Default::default() });
    assert!(err.contains("message exceeds 10000"));
    assert_eq!(err, "validation error: message exceeds 10000 characters: 10001");
}

#[test]
fn test_validation_message_at_limit() {
    assert!(is_accepted(LogEntry { message: "x".repeat(10_000), ..Default::default() }));
    assert!(is_accepted(LogEntry { message: "x".into(), ..Default::default() }));
}

#[test]
fn message_limit_counts_characters() {
    assert!(is_accepted(LogEntry { message: "é".repeat(10_000), ..Default::default() }));
}

#[test]
fn test_validation_too_many_tags() {
    let err = validation_error(LogEntry { message: "test".into(), tags: Some(vec!["tag".into(); 21]), ..Default::default() });
    assert!(err.contains("at most 20"));
    assert!(err.contains("tags"));
}

#[test]
fn test_validation_tag_too_long() {
    let err = validation_error(LogEntry { message: "test".into(), tags: Some(vec!["x".repeat(51)]), ..Default::default() });
    assert!(err.contains("tags[0] exceeds 50"));
}

#[test]
fn tag_violation_names_the_first_long_tag() {
    let tags = vec!["ok".to_string(), "y".repeat(50), "x".repeat(51), "z".repeat(60)];
    let err = validation_error(LogEntry { message: "test".into(), tags: Some(tags), ..Default::default() });
    assert_eq!(err, "validation error: tags[2] exceeds 50 characters: 51");
}

#[test]
fn tags_at_their_limits_pass() {
    let tags = vec!["x".repeat(50); 20];
    assert!(is_accepted(LogEntry { message: "test".into(), tags: Some(tags), ..Default::default() }));
    assert!(is_accepted(LogEntry { message: "test".into(), tags: Some(Vec::new()), ..Default::default() }));
}

#[test]
fn test_validation_step_index_bounds() {
    let err = validation_error(LogEntry { message: "test".into(), step_index: Some(1001), ..Default::default() });
    assert!(err.contains("step_index"));
}

#[test]
fn test_validation_step_index_at_limit() {
    assert!(is_accepted(LogEntry { message: "test".into(), step_index: Some(1000), ..Default::default() }));
    assert!(is_accepted(LogEntry { message: "test".into(), step_index: Some(0), ..Default::default() }));
}

#[test]
fn validation_checks_message_before_tags_and_step() {
    let err = validation_error(LogEntry {
        message: String::new(),
        tags: Some(vec!["tag".into(); 21]),
        step_index: Some(5000),
        user_id: Some("x".repeat(101)),
        ..Default::default()
    });
    assert_eq!(err, "validation error: message must not be empty");
    let err = validation_error(LogEntry {
        message: "m".into(),
        step_index: Some(5000),
        user_id: Some("x".repeat(101)),
        ..Default::default()
    });
    assert_eq!(err, "validation error: step_index must be 0-1000, got 5000");
}

fn assert_field_too_long(field: &str, max_len: usize) {
    let long = "x".repeat(max_len + 1);
    let mut entry = LogEntry { message: "test".into(), ..Default::default() };
    let mut at_limit = LogEntry { message: "test".into(), ..Default::default() };
    let fits = Some("x".repeat(max_len));

    match field {
        "user_id" => { entry.user_id = Some(long); at_limit.user_id = fits; }
        "session_id" => { entry.session_id = Some(long); at_limit.session_id = fits; }
        "request_id" => { entry.request_id = Some(long); at_limit.request_id = fits; }
        "error_name" => { entry.error_name = Some(long); at_limit.error_name = fits; }
        "error_stack" => { entry.error_stack = Some(long); at_limit.error_stack = fits; }
        "flow_id" => { entry.flow_id = Some(long); at_limit.flow_id = fits; }
        "dataset" => { entry.dataset = Some(long); at_limit.dataset = fits; }
        "ip_address" => { entry.ip_address = Some(long); at_limit.ip_address = fits; }
        "country" => { entry.country = Some(long); at_limit.country = fits; }
        _ => panic!("unknown field: {field}"),
    }

    let err = validation_error(entry);
    assert!(err.contains(field), "error should mention {field}: {err}");
    assert!(err.contains(&format!("exceeds {max_len}")), "error should mention limit {max_len}: {err}");
    assert!(is_accepted(at_limit), "{field} at {max_len} characters should pass");
}

#[test]
fn test_validation_user_id_too_long() {
    assert_field_too_long("user_id", 100);
}

#[test]
fn test_validation_session_id_too_long() {
    assert_field_too_long("session_id", 100);
}

#[test]
fn test_validation_request_id_too_long() {
    assert_field_too_long("request_id", 100);
}

#[test]
fn test_validation_error_name_too_long() {
    assert_field_too_long("error_name", 200);
}

#[test]
fn test_validation_error_stack_too_long() {
    assert_field_too_long("error_stack", 10_000);
}

#[test]
fn test_validation_flow_id_too_long() {
    assert_field_too_long("flow_id", 100);
}

#[test]
fn test_validation_dataset_too_long() {
    assert_field_too_long("dataset", 50);
}

#[test]
fn test_validation_ip_address_too_long() {
    assert_field_too_long("ip_address", 100);
}

#[test]
fn test_validation_country_too_long() {
    assert_field_too_long("country", 10);
}

// ── Overlay: user and session id ──

#[test]
fn test_set_user_id() {
    let (settings, mut overlay) = ClientSettings::resolve(mock_config("tb_key", "http://127.0.0.1:9"));
    overlay.user_id = Some("user_123".into());
    let record = settings
        .prepare_record(LogEntry { message: "test message".into(), ..Default::default() }, &overlay)
        .unwrap()
        .unwrap();
    assert_eq!(record.user_id.as_deref(), Some("user_123"));
    let own = settings
        .prepare_record(LogEntry { message: "m".into(), user_id: Some("own".into()), ..Default::default() }, &overlay)
        .unwrap()
        .unwrap();
    assert_eq!(own.user_id.as_deref(), Some("own"));
}

#[test]
fn test_set_session_id() {
    let (settings, mut overlay) = ClientSettings::resolve(mock_config("tb_key", "http://127.0.0.1:9"));
    overlay.session_id = Some("sess_abc".into());
    let record = settings
        .prepare_record(LogEntry { message: "test message".into(), ..Default::default() }, &overlay)
        .unwrap()
        .unwrap();
    assert_eq!(record.session_id.as_deref(), Some("sess_abc"));
    assert_eq!(record.source, "test");
    assert_eq!(record.environment, Environment::Development);
}

#[test]
fn dataset_falls_back_on_the_client() {
    let (settings, overlay) = ClientSettings::resolve(TimberlogsConfig {
        dataset: Some("main".into()),
        version: Some("1.2.3".into()),
        ..test_config("k")
    });
    let r = settings.prepare_record(LogEntry { message: "m".into(), ..Default::default() }, &overlay).unwrap().unwrap();
    assert_eq!(r.dataset.as_deref(), Some("main"));
    assert_eq!(r.version.as_deref(), Some("1.2.3"));
    let r = settings
        .prepare_record(LogEntry { message: "m".into(), dataset: Some("other".into()), ..Default::default() }, &overlay)
        .unwrap()
        .unwrap();
    assert_eq!(r.dataset.as_deref(), Some("other"));
}

// ── Queue and flush ──

fn record(settings: &ClientSettings, message: &str) -> OutboundRecord {
    let overlay = Overlay { user_id: None, session_id: None };
    settings
        .prepare_record(LogEntry { message: message.into(), ..Default::default() }, &overlay)
        .unwrap()
        .unwrap()
}

#[test]
fn test_batch_flush_on_size() {
    let (settings, _) = ClientSettings::resolve(TimberlogsConfig {
        batch_size: Some(2),
        ..mock_config("tb_key", "http://127.0.0.1:9")
    });
    let overlay = Overlay { user_id: None, session_id: None };
    let mut queue = LogQueue::new();
    // First log: queued, not flushed
    let first = LogEntry { message: "msg 1".into(), ..Default::default() };
    assert!(matches!(settings.enqueue_entry(&mut queue, first, &overlay), Ok(false)));
    // Second log: triggers flush
    let second = LogEntry { message: "msg 2".into(), ..Default::default() };
    assert!(matches!(settings.enqueue_entry(&mut queue, second, &overlay), Ok(true)));
    let batch = queue.drain().expect("one batch");
    assert_eq!(batch.len(), 2);
    assert_eq!(batch[0].message, "msg 1");
    assert_eq!(batch[1].message, "msg 2");
    assert!(queue.is_empty());
    assert!(queue.drain().is_none());

    let payload = timberlogs::batch_payload(&batch);
    let logs = payload["logs"].as_array().unwrap();
    assert_eq!(logs.len(), 2);
    assert_eq!(logs[0]["message"], "msg 1");
    assert_eq!(logs[1]["message"], "msg 2");
}

#[test]
fn test_manual_flush() {
    let (settings, _) = ClientSettings::resolve(TimberlogsConfig {
        batch_size: Some(100),
        ..mock_config("tb_key", "http://127.0.0.1:9")
    });
    let mut queue = LogQueue::new();
    assert!(!queue.enqueue(record(&settings, "buffered msg"), settings.batch_size));
    let batch = queue.drain().expect("a batch to send");
    assert_eq!(batch.len(), 1);
    assert!(queue.finish_flush(batch, Ok(())).is_ok());
    assert!(queue.is_empty());
}

#[test]
fn test_flush_empty_queue() {
    let mut queue = LogQueue::new();
    assert!(queue.drain().is_none());
    assert_eq!(queue.len(), 0);
}

#[test]
fn failed_flush_requeues_ahead_of_newer_records() {
    let (settings, _) = ClientSettings::resolve(test_config("k"));
    let mut queue = LogQueue::new();
    queue.enqueue(record(&settings, "a"), 100);
    queue.enqueue(record(&settings, "b"), 100);
    let batch = queue.drain().unwrap();
    queue.enqueue(record(&settings, "c"), 100);
    let r = queue.finish_flush(batch, Err(TimberlogsError::Http { status: 503, body: "busy".into() }));
    assert!(matches!(r, Err(TimberlogsError::Http { status: 503, .. })));
    let again = queue.drain().unwrap();
    let order: Vec<&str> = again.iter().map(|r| r.message.as_str()).collect();
    assert_eq!(order, vec!["a", "b", "c"]);
}

// ── HTTP errors and retry ──

#[test]
fn test_http_error_returns_error() {
    let policy = RetryConfig { max_retries: 0, initial_delay_ms: 10, max_delay_ms: 10 };
    let outcome = timberlogs::classify_response(500, "Internal Server Error".into());
    let (result, attempts, waits) = run_sender(policy, vec![outcome]);
    assert_eq!(attempts, 1);
    assert!(waits.is_empty());
    let err = result.err().unwrap().to_string();
    assert!(err.contains("500"));
    assert_eq!(err, "HTTP error 500: Internal Server Error");
}

#[test]
fn test_retry_succeeds_after_failure() {
    let policy = RetryConfig { max_retries: 1, initial_delay_ms: 10, max_delay_ms: 10 };
    let outcomes = vec![
        timberlogs::classify_response(500, "error".into()),
        timberlogs::classify_response(200, r#"{"success":true,"count":1}"#.into()),
    ];
    let (result, attempts, waits) = run_sender(policy, outcomes);
    assert!(result.is_ok());
    assert_eq!(attempts, 2);
    assert_eq!(waits, vec![10]);
}

#[test]
fn exhausted_retries_report_the_last_answer() {
    let policy = RetryConfig { max_retries: 2, initial_delay_ms: 5, max_delay_ms: 100 };
    let outcomes = vec![http(500, "first"), AttemptOutcome::Transport("reset".into()), http(502, "last body")];
    let (result, attempts, waits) = run_sender(policy, outcomes);
    assert_eq!(attempts, 3);
    assert_eq!(waits, vec![5, 10]);
    match result {
        Err(TimberlogsError::Http { status, body }) => {
            assert_eq!(status, 502);
            assert_eq!(body, "last body");
        }
        other => panic!("unexpected result: {:?}", other),
    }
}

#[test]
fn backoff_doubles_up_to_the_cap() {
    let policy = RetryConfig { max_retries: 6, initial_delay_ms: 1000, max_delay_ms: 30000 };
    let outcomes: Vec<AttemptOutcome> = (0..7).map(|_| http(500, "e")).collect();
    let (_, attempts, waits) = run_sender(policy, outcomes);
    assert_eq!(attempts, 7);
    assert_eq!(waits, vec![1000, 2000, 4000, 8000, 16000, 30000]);
    assert_eq!(timberlogs::backoff(u64::MAX, 30000), 30000);
    assert_eq!(timberlogs::backoff(7, 100), 14);
}

#[test]
fn unreadable_acknowledgement_is_not_retried() {
    let policy = RetryConfig { max_retries: 3, initial_delay_ms: 5, max_delay_ms: 5 };
    let outcome = timberlogs::classify_response(200, "not json".into());
    assert!(matches!(outcome, AttemptOutcome::InvalidAck(_)));
    let (result, attempts, _) = run_sender(policy, vec![outcome]);
    assert_eq!(attempts, 1);
    assert!(matches!(result, Err(TimberlogsError::Request(_))));
}

#[test]
fn acknowledgement_shape_is_checked() {
    assert!(matches!(timberlogs::classify_response(201, r#"{"success":false,"count":0}"#.into()), AttemptOutcome::Delivered));
    assert!(matches!(timberlogs::classify_response(200, r#"{"success":true}"#.into()), AttemptOutcome::InvalidAck(_)));
    assert!(matches!(timberlogs::classify_response(200, r#"{"success":1,"count":1}"#.into()), AttemptOutcome::InvalidAck(_)));
    assert!(matches!(timberlogs::classify_response(200, r#"{"success":true,"count":4294967296}"#.into()), AttemptOutcome::InvalidAck(_)));
    assert!(matches!(timberlogs::classify_response(299, r#"{"success":true,"count":4294967295}"#.into()), AttemptOutcome::Delivered));
    assert!(matches!(timberlogs::classify_response(300, "".into()), AttemptOutcome::Http { status: 300, .. }));
    assert!(matches!(timberlogs::classify_response(199, "".into()), AttemptOutcome::Http { status: 199, .. }));
}

// ── Flows ──

#[test]
fn flow_steps_count_up_from_zero() {
    let v: serde_json::Value = serde_json::from_str(r#"{"flowId":"flow_9","name":"checkout"}"#).unwrap();
    let mut flow = timberlogs::read_flow_response(&v).unwrap();
    assert_eq!(flow.id, "flow_9");
    assert_eq!(flow.name, "checkout");
    assert_eq!(flow.step_index(), 0);
    let first = flow.next_entry(LogLevel::Info, "start".into(), None, None);
    let second = flow.next_entry(LogLevel::Warn, "next".into(), None, Some(vec!["t".into()]));
    assert_eq!(first.step_index, Some(0));
    assert_eq!(second.step_index, Some(1));
    assert_eq!(second.flow_id.as_deref(), Some("flow_9"));
    assert_eq!(second.level, LogLevel::Warn);
    assert_eq!(second.tags, Some(vec!["t".to_string()]));
    assert_eq!(flow.step_index(), 2);
}

#[test]
fn flow_past_the_step_cap_fails_validation() {
    let mut flow = timberlogs::Flow::new("f".into(), "long".into());
    for _ in 0..1001 {
        let entry = flow.next_entry(LogLevel::Info, "step".into(), None, None);
        assert!(is_accepted(entry));
    }
    let entry = flow.next_entry(LogLevel::Info, "step".into(), None, None);
    assert_eq!(validation_error(entry), "validation error: step_index must be 0-1000, got 1001");
}

#[test]
fn flow_response_without_id_is_refused() {
    let v: serde_json::Value = serde_json::from_str(r#"{"name":"checkout"}"#).unwrap();
    assert!(matches!(timberlogs::read_flow_response(&v), Err(TimberlogsError::Request(_))));
}

// ── Raw ingestion ──

fn pairs(v: Vec<(String, String)>) -> Vec<(String, String)> {
    v
}

#[test]
fn test_ingest_raw_json() {
    let q = pairs(timberlogs::raw_query(RawFormat::Json, &None));
    assert_eq!(q, vec![("format".to_string(), "json".to_string())]);
    assert_eq!(RawFormat::Json.content_type(), "application/json");
}

#[test]
fn test_ingest_raw_csv_with_options() {
    let options = Some(IngestRawOptions {
        source: Some("my-app".into()),
        dataset: Some("logs".into()),
        ..Default::default()
    });
    let q = timberlogs::raw_query(RawFormat::Csv, &options);
    assert_eq!(
        q,
        vec![
            ("format".to_string(), "csv".to_string()),
            ("source".to_string(), "my-app".to_string()),
            ("dataset".to_string(), "logs".to_string()),
        ]
    );
    assert_eq!(RawFormat::Csv.content_type(), "text/csv");
}

#[test]
fn raw_query_with_every_override() {
    let options = Some(IngestRawOptions {
        source: Some("s".into()),
        environment: Some(Environment::Production),
        level: Some(LogLevel::Warn),
        dataset: Some("d".into()),
    });
    let q = timberlogs::raw_query(RawFormat::Syslog, &options);
    let names: Vec<&str> = q.iter().map(|p| p.0.as_str()).collect();
    let values: Vec<&str> = q.iter().map(|p| p.1.as_str()).collect();
    assert_eq!(names, vec!["format", "source", "dataset", "environment", "level"]);
    assert_eq!(values, vec!["syslog", "s", "d", "production", "warn"]);
}

#[test]
fn test_ingest_raw_all_formats() {
    let formats = vec![
        (RawFormat::Json, "json", "application/json"),
        (RawFormat::Jsonl, "jsonl", "application/x-ndjson"),
        (RawFormat::Syslog, "syslog", "application/x-syslog"),
        (RawFormat::Text, "text", "text/plain"),
        (RawFormat::Csv, "csv", "text/csv"),
        (RawFormat::Obl, "obl", "application/x-obl"),
    ];

    for (format, format_str, content_type) in formats {
        assert_eq!(format.as_str(), format_str);
        assert_eq!(format.content_type(), content_type);
    }
}

// ── Record encoding ──

#[test]
fn test_log_entry_serialization_omits_none() {
    let (settings, overlay) = ClientSettings::resolve(test_config("k"));
    let rec = settings
        .prepare_record(LogEntry { message: "test".into(), ..Default::default() }, &overlay)
        .unwrap()
        .unwrap();

    let json = rec.to_json();
    assert!(json.get("data").is_none());
    assert!(json.get("userId").is_none());
    assert!(json.get("tags").is_none());
    assert!(json.get("timestamp").is_none());
    assert!(json.get("ipAddress").is_none());
    assert!(json.get("country").is_none());
    let mut keys: Vec<&str> = json.keys().map(|k| k.as_str()).collect();
    keys.sort();
    assert_eq!(keys, vec!["environment", "level", "message", "source"]);
    assert_eq!(json["level"], "info");
    assert_eq!(json["environment"], "development");
}

#[test]
fn test_log_entry_serialization_includes_set_fields() {
    let (settings, overlay) = ClientSettings::resolve(test_config("k"));
    let rec = settings
        .prepare_record(
            LogEntry {
                message: "test".into(),
                user_id: Some("u1".into()),
                timestamp: Some(1700000000000),
                ip_address: Some("10.0.0.1".into()),
                country: Some("GB".into()),
                ..Default::default()
            },
            &overlay,
        )
        .unwrap()
        .unwrap();

    let json = rec.to_json();
    assert_eq!(json["userId"], "u1");
    assert_eq!(json["timestamp"], 1700000000000u64);
    assert_eq!(json["ipAddress"], "10.0.0.1");
    assert_eq!(json["country"], "GB");
}

#[test]
fn fully_populated_record_has_every_key() {
    let (settings, overlay) = ClientSettings::resolve(TimberlogsConfig { version: Some("0.1.0".into()), ..test_config("k") });
    let entry = LogEntry {
        level: LogLevel::Error,
        message: "test error".into(),
        data: Some(HashMap::from([("key".into(), serde_json::Value::from("value"))])),
        user_id: Some("user_1".into()),
        session_id: Some("sess_1".into()),
        request_id: Some("req_1".into()),
        error_name: Some("TestError".into()),
        error_stack: Some("at main.rs:1".into()),
        tags: Some(vec!["tag1".into()]),
        flow_id: Some("flow_1".into()),
        step_index: Some(3),
        dataset: Some("test-dataset".into()),
        timestamp: Some(1700000000000),
        ip_address: Some("192.168.1.1".into()),
        country: Some("US".into()),
    };
    let json = settings.prepare_record(entry, &overlay).unwrap().unwrap().to_json();
    let mut keys: Vec<&str> = json.keys().map(|k| k.as_str()).collect();
    keys.sort();
    assert_eq!(
        keys,
        vec![
            "country", "data", "dataset", "environment", "errorName", "errorStack", "flowId", "ipAddress",
            "level", "message", "requestId", "sessionId", "source", "stepIndex", "tags", "timestamp", "userId",
            "version",
        ]
    );
    assert_eq!(json["data"]["key"], "value");
    assert_eq!(json["tags"][0], "tag1");
    assert_eq!(json["stepIndex"], 3);
    assert_eq!(json["level"], "error");
}

#[test]
fn flow_request_body_holds_the_name() {
    let body = timberlogs::flow_request(&"checkout".to_string());
    assert_eq!(body["name"], "checkout");
    assert_eq!(body.len(), 1);
}

// ── LogLevel ordering ──

#[test]
fn test_log_level_ordering() {
    assert!(LogLevel::Debug < LogLevel::Info);
    assert!(LogLevel::Info < LogLevel::Warn);
    assert!(LogLevel::Warn < LogLevel::Error);
}

#[test]
fn level_below_agrees_with_the_order() {
    let levels = [LogLevel::Debug, LogLevel::Info, LogLevel::Warn, LogLevel::Error];
    for (i, a) in levels.iter().enumerate() {
        for (j, b) in levels.iter().enumerate() {
            assert_eq!(a.is_below(b), i < j);
            assert_eq!(a < b, i < j);
        }
    }
    assert_eq!(LogLevel::Warn.as_str(), "warn");
}

// ── Environment encoding ──

#[test]
fn test_environment_serialization() {
    let encode = |e: Environment| serde_json::to_string(&serde_json::Value::from(e.as_str())).unwrap();
    assert_eq!(encode(Environment::Development), "\"development\"");
    assert_eq!(encode(Environment::Staging), "\"staging\"");
    assert_eq!(encode(Environment::Production), "\"production\"");
}

// ── Error text ──

#[test]
fn error_texts() {
    assert_eq!(TimberlogsError::NotConnected.to_string(), "client is not connected");
    assert_eq!(TimberlogsError::Request("timed out".into()).to_string(), "request failed: timed out");
    assert_eq!(timberlogs::decimal_string(0), "0");
    assert_eq!(timberlogs::decimal_string(1700000000000), "1700000000000");
    assert_eq!(timberlogs::decimal_string(u64::MAX), "18446744073709551615");
}

#[test]
fn flow_answer_is_read_after_its_status() {
    let flow = timberlogs::read_flow_answer(201, r#"{"flowId":"f1","name":"signup"}"#.into()).unwrap();
    assert_eq!(flow.id, "f1");
    assert_eq!(flow.name, "signup");
    assert_eq!(flow.step_index(), 0);
    match timberlogs::read_flow_answer(404, "no such route".into()) {
        Err(TimberlogsError::Http { status, body }) => {
            assert_eq!(status, 404);
            assert_eq!(body, "no such route");
        }
        _ => panic!("expected an HTTP error"),
    }
    assert!(matches!(timberlogs::read_flow_answer(200, "{".into()), Err(TimberlogsError::Request(_))));
}

#[test]
fn raw_answer_status_is_checked() {
    assert!(timberlogs::check_status(200, String::new()).is_ok());
    assert!(timberlogs::check_status(204, String::new()).is_ok());
    match timberlogs::check_status(413, "too large".into()) {
        Err(TimberlogsError::Http { status, body }) => {
            assert_eq!(status, 413);
            assert_eq!(body, "too large");
        }
        _ => panic!("expected an HTTP error"),
    }
}

#[test]
fn batch_body_holds_each_record_in_order() {
    let (settings, overlay) = ClientSettings::resolve(TimberlogsConfig { environment: Environment::Staging, ..test_config("k") });
    let mut queue = LogQueue::new();
    for (level, message) in [(LogLevel::Debug, "one"), (LogLevel::Warn, "two"), (LogLevel::Error, "three")] {
        let entry = LogEntry { level, message: message.into(), step_index: Some(7), ..Default::default() };
        settings.enqueue_entry(&mut queue, entry, &overlay).unwrap();
    }
    let batch = queue.drain().unwrap();
    let body = serde_json::Value::Object(timberlogs::batch_payload(&batch));
    let logs = body["logs"].as_array().unwrap();
    assert_eq!(logs.len(), 3);
    assert_eq!(logs[0]["level"], "debug");
    assert_eq!(logs[1]["level"], "warn");
    assert_eq!(logs[2]["level"], "error");
    assert_eq!(logs[2]["message"], "three");
    assert_eq!(logs[0]["environment"], "staging");
    assert_eq!(logs[0]["source"], "test");
    assert_eq!(logs[1]["stepIndex"], 7);
}

use cozo_pool::layer1::database::{
    Content, ContentType, HealthStatus, MockDatabaseError, MockDatabaseProvider, MockTestFactory,
    PerformanceTracker, Priority, ProcessingState, Severity,
};
use cozo_pool::layer1::types::{
    BatchConfig, DatabaseConfig, DatabaseId, MonitoringConfig, OperationResult, PipelineStage,
    RecordId, RetryConfig, SessionConfig,
};
use cozo_pool::text::{chars_of, contains, decimal, find_from, parse_usize};
use cozo_pool::time::Duration;

#[test]
fn default_configurations() {
    assert_eq!(
        BatchConfig::default(),
        BatchConfig {
            max_batch_size: 32,
            timeout_ms: 5000,
            enable_parallel_processing: true,
            max_concurrent_batches: 4
        }
    );
    assert_eq!(
        SessionConfig::default(),
        SessionConfig {
            session_timeout_ms: 300_000,
            max_sessions_per_model: 10,
            enable_session_caching: true,
            session_warmup: true,
            memory_limit_mb: 2048
        }
    );
    let retry = RetryConfig {
        max_retries: 3,
        base_delay_ms: 100,
        max_delay_ms: 10_000,
        exponential_backoff: true,
        jitter: true,
    };
    assert_eq!(RetryConfig::default(), retry);
    let database = DatabaseConfig::default();
    assert_eq!(database.connection_string, "sqlite://:memory:");
    assert_eq!(database.pool_size, 10);
    assert_eq!(database.timeout_ms, 30_000);
    assert_eq!(database.retry_config, retry);
    assert!(!database.enable_ssl);
    assert_eq!(database.clone().connection_string, "sqlite://:memory:");
    assert_eq!(
        MonitoringConfig::default(),
        MonitoringConfig {
            enable_metrics: true,
            metrics_export_interval_ms: 60_000,
            enable_health_checks: true,
            health_check_interval_ms: 30_000,
            enable_tracing: false
        }
    );
}

#[test]
fn back_off_doubles_up_to_the_greatest_delay() {
    let retry = RetryConfig::default();
    assert_eq!(retry.backoff_delay(0), 100);
    assert_eq!(retry.backoff_delay(1), 200);
    assert_eq!(retry.backoff_delay(2), 400);
    assert_eq!(retry.backoff_delay(6), 6400);
    assert_eq!(retry.backoff_delay(7), 10_000);
    assert_eq!(retry.backoff_delay(u32::MAX), 10_000);
    let flat = RetryConfig { exponential_backoff: false, ..retry };
    assert_eq!(flat.backoff_delay(0), 100);
    assert_eq!(flat.backoff_delay(9), 100);
    let capped = RetryConfig { base_delay_ms: 20_000, ..retry };
    assert_eq!(capped.backoff_delay(0), 10_000);
    let huge = RetryConfig { base_delay_ms: 1, max_delay_ms: u64::MAX, ..retry };
    assert_eq!(huge.backoff_delay(63), 1 << 63);
    assert_eq!(huge.backoff_delay(64), u64::MAX);
    let zero = RetryConfig { base_delay_ms: 0, ..retry };
    assert_eq!(zero.backoff_delay(1000), 0);
    assert!(retry.allows(0) && retry.allows(2) && !retry.allows(3));
}

#[test]
fn pipeline_stages_have_names() {
    assert_eq!(PipelineStage::Initialization.as_str(), "initialization");
    assert_eq!(PipelineStage::DataExtraction.as_str(), "data_extraction");
    assert_eq!(PipelineStage::Chunking.as_str(), "chunking");
    assert_eq!(PipelineStage::Inference.as_str(), "inference");
    assert_eq!(PipelineStage::Aggregation.as_str(), "aggregation");
    assert_eq!(PipelineStage::Storage.as_str(), "storage");
    assert_eq!(PipelineStage::Completion.as_str(), "completion");
}

#[test]
fn operation_results() {
    let done = OperationResult::success(7u32, 12);
    assert_eq!(done.data, Some(7));
    assert_eq!(done.duration_ms, 12);
    assert!(done.success);
    assert_eq!(done.error_message, None);
    assert!(done.metadata.is_empty());
    let failed: OperationResult<u32> = OperationResult::failure("boom".to_string(), 3);
    assert_eq!(failed.data, None);
    assert_eq!(failed.duration_ms, 3);
    assert!(!failed.success);
    assert_eq!(failed.error_message, Some("boom".to_string()));
    assert!(failed.metadata.is_empty());
}

#[test]
fn identifiers_are_random() {
    assert_ne!(DatabaseId::new(), DatabaseId::new());
    assert_ne!(DatabaseId::default(), DatabaseId::default());
    assert_ne!(RecordId::new(), RecordId::default());
    let id = DatabaseId::new();
    assert_eq!(id.to_string(), id.0.to_string());
    assert_eq!(id.to_string().len(), 36);
}

#[test]
fn numbers_in_decimal() {
    for n in [0u128, 1, 9, 10, 11, 99, 100, 1234567890, u64::MAX as u128, u128::MAX] {
        assert_eq!(decimal(n), n.to_string());
    }
}

#[test]
fn a_tracker_fails_an_operation_that_took_more_than_twice_its_time() {
    let tracker = PerformanceTracker::new("connect", Duration::from_millis(100));
    assert!(tracker.check_elapsed(Duration::from_millis(0)).is_ok());
    assert!(tracker.check_elapsed(Duration::from_millis(150)).is_ok());
    assert!(tracker.check_elapsed(Duration::from_millis(200)).is_ok());
    match tracker.check_elapsed(Duration::from_nanos(200_000_001)) {
        Err(MockDatabaseError::MockError { message }) => assert_eq!(
            message,
            "Performance contract violation: connect took 200ms (expected < 100ms)"
        ),
        other => panic!("unexpected: {:?}", other),
    }
    match tracker.clone().check_elapsed(Duration::from_secs(3)) {
        Err(MockDatabaseError::MockError { message }) => assert_eq!(
            message,
            "Performance contract violation: connect took 3000ms (expected < 100ms)"
        ),
        other => panic!("unexpected: {:?}", other),
    }
    assert!(tracker.check_contract().is_ok());
    let none = PerformanceTracker::new("x", Duration::from_secs(u64::MAX));
    assert!(none.check_elapsed(Duration::from_nanos(u128::MAX)).is_err());
    assert!(PerformanceTracker::new("x", Duration::from_nanos(u128::MAX))
        .check_elapsed(Duration::from_nanos(u128::MAX))
        .is_ok());
}

#[test]
fn provider_errors_in_words() {
    let words = |e: MockDatabaseError| e.to_string();
    assert_eq!(words(MockDatabaseError::ConnectionFailed("a".into())), "Connection failed: a");
    assert_eq!(words(MockDatabaseError::QueryFailed("a".into())), "Query failed: a");
    assert_eq!(words(MockDatabaseError::Unavailable("a".into())), "Database unavailable: a");
    assert_eq!(
        words(MockDatabaseError::InvalidConnectionString("a".into())),
        "Invalid connection string: a"
    );
    assert_eq!(
        words(MockDatabaseError::ResourceLimitExhausted {
            resource: "connections".into(),
            used: 100,
            limit: 50
        }),
        "Resource limit exhausted: connections used 100/50"
    );
    assert_eq!(words(MockDatabaseError::MockError { message: "m".into() }), "Mock error: m");
    assert!(MockDatabaseError::QueryFailed("a".into()).is_retryable());
}

#[test]
fn a_provider_checks_its_connection_string() {
    assert!(MockDatabaseProvider::new("test://localhost").validate_connection_string().is_ok());
    assert!(MockDatabaseProvider::new("://").validate_connection_string().is_ok());
    match MockDatabaseProvider::new("").validate_connection_string() {
        Err(MockDatabaseError::InvalidConnectionString(message)) => {
            assert_eq!(message, "Connection string cannot be empty")
        }
        other => panic!("unexpected: {:?}", other),
    }
    match MockDatabaseProvider::new("localhost:/5432").validate_connection_string() {
        Err(MockDatabaseError::InvalidConnectionString(message)) => {
            assert_eq!(message, "Invalid connection string format: localhost:/5432")
        }
        other => panic!("unexpected: {:?}", other),
    }
}

#[test]
fn a_provider_fails_at_its_rate() {
    let never = MockDatabaseProvider::new("test://localhost");
    let always = MockDatabaseProvider::new("test://localhost").with_failure_rate(2_000_000);
    let half = MockDatabaseProvider::new("test://localhost").with_failure_rate(500_000);
    for _ in 0..100 {
        assert!(never.simulate_random_failure().is_ok());
        assert!(always.simulate_random_failure().is_err());
    }
    assert!(never.failure_on(0).is_ok());
    assert!(always.failure_on(999_999).is_err());
    assert!(half.failure_on(499_999).is_err());
    assert!(half.failure_on(500_000).is_ok());
    match half.failure_on(0) {
        Err(MockDatabaseError::ConnectionFailed(message)) => {
            assert_eq!(message, "Simulated random connection failure")
        }
        other => panic!("unexpected: {:?}", other),
    }
}

#[test]
fn the_parts_of_a_batch_add_up_at_every_rate() {
    for rate in [0u32, 1, 250_000, 500_000, 999_999, 1_000_000, u32::MAX] {
        let provider = MockDatabaseProvider::new("test://localhost").with_failure_rate(rate);
        for total in [0usize, 1, 7, 200] {
            let result = provider.execute_batch(total).unwrap();
            assert_eq!(result.total_operations, total);
            assert_eq!(result.successful_operations + result.failed_operations, total);
            assert_eq!(result.errors.len(), result.failed_operations);
            if rate == 0 {
                assert_eq!(result.failed_operations, 0);
            }
            if rate >= 1_000_000 {
                assert_eq!(result.successful_operations, 0);
                assert_eq!(result.failed_operations, total);
            }
            // Each text names a failed operation, in ascending order, below the total.
            let mut last: Option<usize> = None;
            for text in &result.errors {
                let rest = text.strip_prefix("Operation ").unwrap();
                let (index, tail) = rest.split_once(' ').unwrap();
                assert_eq!(tail, "failed: Connection failed: Simulated random connection failure");
                let index: usize = index.parse().unwrap();
                assert!(index < total);
                assert!(last.map_or(true, |before| before < index));
                last = Some(index);
            }
            if rate >= 1_000_000 && total > 0 {
                assert_eq!(last, Some(total - 1));
            }
        }
    }
}

#[test]
fn a_batch_is_tallied_by_its_draws() {
    let provider = MockDatabaseProvider::new("test://localhost").with_failure_rate(300_000);
    let draws = vec![0, 299_999, 300_000, 999_999, 5, 700_000];
    let result = provider.execute_batch_with(&draws, Duration::from_millis(42));
    assert_eq!(result.total_operations, 6);
    assert_eq!(result.failed_operations, 3);
    assert_eq!(result.successful_operations, 3);
    assert_eq!(result.duration, Duration::from_millis(42));
    assert_eq!(
        result.errors,
        vec![
            "Operation 0 failed: Connection failed: Simulated random connection failure",
            "Operation 1 failed: Connection failed: Simulated random connection failure",
            "Operation 4 failed: Connection failed: Simulated random connection failure",
        ]
    );
}

#[test]
fn a_provider_hands_out_connections_up_to_its_limit() {
    let mut provider = MockDatabaseProvider::new("test://localhost").with_max_connections(2);
    assert!(matches!(provider.health_status(), HealthStatus::Healthy));
    let mut first = provider.connect().unwrap();
    assert!(first.is_healthy().unwrap());
    assert_eq!(first.query_count, 0);
    match provider.health_status() {
        HealthStatus::Degraded { reason, severity } => {
            assert_eq!(reason, "High connection usage: 1/2");
            assert_eq!(severity, Severity::Warning);
        }
        other => panic!("unexpected: {:?}", other),
    }
    let second = provider.connect_with(0).unwrap();
    assert_ne!(first.id, second.id);
    match provider.health_check().unwrap() {
        HealthStatus::Degraded { reason, severity } => {
            assert_eq!(reason, "Maximum connection limit reached");
            assert_eq!(severity, Severity::Error);
        }
        other => panic!("unexpected: {:?}", other),
    }
    match provider.connect() {
        Err(MockDatabaseError::ResourceLimitExhausted { resource, used, limit }) => {
            assert_eq!(resource, "connections");
            assert_eq!((used, limit), (2, 2));
        }
        other => panic!("unexpected: {:?}", other),
    }
    first.record_query();
    first.record_query();
    assert_eq!(first.query_count, 2);
    let info = first.connection_info();
    assert_eq!(info.query_count, 2);
    assert!(info.active);
    assert_eq!(info.created_at, first.created_at);
    first.close().unwrap();
    assert!(!first.is_healthy().unwrap());
    assert!(!first.connection_info().active);
    first.query_count = u64::MAX;
    first.record_query();
    assert_eq!(first.query_count, 0);
}

#[test]
fn a_provider_refuses_to_connect_for_the_first_reason_that_holds() {
    let mut failing = MockDatabaseProvider::new("").with_failure_rate(1_000_000).with_max_connections(0);
    assert!(matches!(failing.connect(), Err(MockDatabaseError::ConnectionFailed(_))));
    let mut unnamed = MockDatabaseProvider::new("").with_max_connections(0);
    assert!(matches!(unnamed.connect(), Err(MockDatabaseError::InvalidConnectionString(_))));
    let mut full = MockDatabaseProvider::new("invalid://url").with_max_connections(0);
    assert!(matches!(
        full.connect_with(7),
        Err(MockDatabaseError::ResourceLimitExhausted { used: 0, limit: 0, .. })
    ));
}

#[test]
fn result_sizes_are_guessed_from_the_query() {
    let provider = MockDatabaseProvider::new("test://localhost");
    let size = |query: &str| provider.estimate_result_size(query);
    assert_eq!(size("SELECT * FROM t LIMIT 25"), 25);
    assert_eq!(size("SELECT * FROM t LIMIT   +7 OFFSET 3"), 7);
    assert_eq!(size("LIMIT\t\u{a0}12\n"), 12);
    assert_eq!(size("SELECT a FROM t LIMIT 0"), 0);
    assert_eq!(size("SELECT a FROM t LIMIT 5LIMIT 9"), 5);
    assert_eq!(size("SELECT a FROM t LIMIT LIMIT 9"), 100);
    assert_eq!(size("SELECT * FROM t LIMIT x"), 1000);
    assert_eq!(size("SELECT * FROM t LIMIT 5x"), 1000);
    assert_eq!(size("SELECT * FROM t LIMIT -5"), 1000);
    assert_eq!(size("SELECT * FROM t LIMIT +"), 1000);
    assert_eq!(size("SELECT * FROM t LIMIT"), 1000);
    assert_eq!(size("SELECT * FROM t limit 5"), 1000);
    assert_eq!(size(&format!("LIMIT {}", usize::MAX)), usize::MAX);
    assert_eq!(size(&format!("LIMIT {}0", usize::MAX)), 1);
    assert_eq!(size("LIMIT 18446744073709551616"), 1);
    assert_eq!(size("LIMIT ٣"), 1);
    assert_eq!(size("SELECT * FROM t"), 1000);
    assert_eq!(size("SELECT COUNT(*) FROM t"), 1000);
    assert_eq!(size("SELECT a FROM t"), 100);
    assert_eq!(size("DELETE FROM t"), 1);
    assert_eq!(size(""), 1);
}

#[test]
fn texts_are_searched_and_numbers_read() {
    let hay = chars_of("abcabcé://x");
    assert_eq!(hay.len(), 11);
    assert_eq!(find_from(&hay, &chars_of("abc"), 0), Some(0));
    assert_eq!(find_from(&hay, &chars_of("abc"), 1), Some(3));
    assert_eq!(find_from(&hay, &chars_of("abc"), 4), None);
    assert_eq!(find_from(&hay, &chars_of(""), 11), Some(11));
    assert_eq!(find_from(&hay, &chars_of(""), 12), None);
    assert_eq!(find_from(&hay, &chars_of("abcabcé://xy"), 0), None);
    assert!(contains(&hay, "://"));
    assert!(contains(&hay, ""));
    assert!(!contains(&hay, ":///"));
    for text in ["", "+", "0", "+0", "007", "12a", "-1", "+-1", " 1", "18446744073709551615", "18446744073709551616", "99999999999999999999999"] {
        let chars = chars_of(text);
        assert_eq!(parse_usize(&chars, 0, chars.len()), text.parse::<usize>().ok(), "{:?}", text);
    }
}

#[test]
fn made_up_records_of_the_provider_and_the_factory() {
    let provider = MockDatabaseProvider::new("test://localhost");
    let record = provider.generate_mock_record(12).unwrap();
    assert!(matches!(&record.content, Content::Text(text) if text == "Mock record content 12"));
    assert_eq!(record.metadata.source, "mock_generator");
    assert_eq!(record.metadata.content_type, ContentType::Code);
    assert_eq!(record.metadata.size_bytes, 100);
    assert!(matches!(record.metadata.processing_state, ProcessingState::Pending));
    assert_eq!(record.metadata.priority, Priority::Normal);
    assert!(record.metadata.custom_fields.is_empty());

    let records = MockTestFactory::new().generate_mock_records();
    assert_eq!(records.len(), 5);
    for (i, record) in records.iter().enumerate() {
        let expected = format!("Mock content for record {}", i + 1);
        assert!(matches!(&record.content, Content::Text(text) if *text == expected));
        assert_eq!(record.metadata.size_bytes, 50);
        assert_eq!(record.metadata.source, "mock_generator");
        assert!(record.metadata.custom_fields["timestamp"].is_string());
    }
}

#[test]
fn a_factory_sets_up_its_providers() {
    let factory = MockTestFactory::new();
    assert_eq!(factory, MockTestFactory::default());
    assert_eq!(factory.latency, Duration::from_millis(10));
    assert_eq!(factory.failure_rate, 0);
    assert_eq!(factory.max_connections, 10);
    let factory = factory
        .with_latency(Duration::from_millis(1))
        .with_failure_rate(3_000_000)
        .with_max_connections(1);
    assert_eq!(factory.latency, Duration::from_millis(1));
    assert_eq!(factory.failure_rate, 1_000_000);
    assert_eq!(factory.with_failure_rate(17).failure_rate, 17);
    let mut provider = factory.database_provider();
    assert!(provider.validate_connection_string().is_ok());
    assert!(provider.connect().is_err());
    let mut calm = MockTestFactory::new().with_max_connections(1).database_provider();
    assert!(calm.connect().is_ok());
    assert!(calm.connect().is_err());
}

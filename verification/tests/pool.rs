use cozo_pool::cozodb::connection::ProbeOutcome;
use cozo_pool::cozodb::connection_pool::{
    ConnectionPoolConfig, CozoConnectionPool, ACQUIRE_RETRY_WAIT_MILLIS,
};
use cozo_pool::cozodb::error::CozoError;
use cozo_pool::cozodb::record::{CodeRecord, Ratio};
use cozo_pool::time::Duration;

fn ok() -> ProbeOutcome {
    ProbeOutcome { succeeded: true, elapsed: Duration::from_millis(1) }
}

fn failed() -> ProbeOutcome {
    ProbeOutcome { succeeded: false, elapsed: Duration::from_millis(1) }
}

fn late() -> ProbeOutcome {
    ProbeOutcome { succeeded: true, elapsed: Duration::from_secs(3600) }
}

fn probes(n: usize) -> Vec<ProbeOutcome> {
    vec![ok(); n]
}

fn test_pool_config() -> ConnectionPoolConfig {
    ConnectionPoolConfig {
        url: "cozodb://./test.cozo".to_string(),
        max_connections: 5,
        connection_timeout: Duration::from_secs(3),
        idle_timeout: Duration::from_secs(15),
        health_check_interval: Duration::from_secs(10),
        max_retry_attempts: 3,
        retry_base_delay: Duration::from_millis(100),
    }
}

fn robust_pool_config() -> ConnectionPoolConfig {
    ConnectionPoolConfig {
        url: "cozodb://./robust.cozo".to_string(),
        max_connections: 10,
        connection_timeout: Duration::from_secs(1),
        idle_timeout: Duration::from_secs(5),
        health_check_interval: Duration::from_secs(2),
        max_retry_attempts: 10,
        retry_base_delay: Duration::from_millis(200),
    }
}

fn performance_pool_config() -> ConnectionPoolConfig {
    ConnectionPoolConfig {
        url: "cozodb://./performance.cozo".to_string(),
        max_connections: 50,
        connection_timeout: Duration::from_millis(500),
        idle_timeout: Duration::from_secs(10),
        health_check_interval: Duration::from_secs(5),
        max_retry_attempts: 5,
        retry_base_delay: Duration::from_millis(50),
    }
}

fn new_pool(config: ConnectionPoolConfig) -> CozoConnectionPool {
    let n = config.max_connections;
    CozoConnectionPool::new(config, &probes(n)).unwrap()
}

#[test]
fn test_pool_creation() {
    let config = ConnectionPoolConfig {
        url: "cozodb://./test.cozo".to_string(),
        max_connections: 5,
        connection_timeout: Duration::from_secs(3),
        idle_timeout: Duration::from_secs(15),
        health_check_interval: Duration::from_secs(5),
        max_retry_attempts: 3,
        retry_base_delay: Duration::from_millis(100),
    };

    let pool = CozoConnectionPool::new(config, &probes(5)).unwrap();
    assert!(pool.is_healthy());
    assert_eq!(pool.active_connections(), 0);
    assert_eq!(pool.max_connections(), 5);
}

#[test]
fn connection_pool_test_connection_lifecycle() {
    let mut pool = new_pool(ConnectionPoolConfig::default());

    let connection1 = pool.acquire_connection(ok(), ok()).unwrap();
    let connection2 = pool.acquire_connection(ok(), ok()).unwrap();

    assert_eq!(pool.active_connections(), 2);

    pool.release_connection(connection1, ok(), ok()).unwrap();
    pool.release_connection(connection2, ok(), ok()).unwrap();

    assert_eq!(pool.active_connections(), 0);
}

#[test]
fn test_connection_pool_creation() {
    let config = ConnectionPoolConfig {
        url: "cozodb://./test.cozo".to_string(),
        max_connections: 5,
        connection_timeout: Duration::from_secs(3),
        idle_timeout: Duration::from_secs(15),
        health_check_interval: Duration::from_secs(10),
        max_retry_attempts: 3,
        retry_base_delay: Duration::from_millis(100),
    };

    let pool = CozoConnectionPool::new(config, &probes(5)).unwrap();
    assert!(pool.is_healthy());
    assert_eq!(pool.active_connections(), 0);
    assert_eq!(pool.max_connections(), 5);
}

#[test]
fn mod_test_connection_lifecycle() {
    let mut pool = new_pool(ConnectionPoolConfig::default());

    let connection1 = pool.acquire_connection(ok(), ok()).unwrap();
    let connection2 = pool.acquire_connection(ok(), ok()).unwrap();

    assert_eq!(pool.active_connections(), 2);

    pool.release_connection(connection1, ok(), ok()).unwrap();
    pool.release_connection(connection2, ok(), ok()).unwrap();

    assert_eq!(pool.active_connections(), 0);
}

#[test]
fn test_pool_performance() {
    let mut pool = new_pool(ConnectionPoolConfig::default());

    let operations_per_task = 10;
    let concurrent_tasks = 5;

    for task_id in 0..concurrent_tasks {
        for i in 0..operations_per_task {
            let mut connection = pool.acquire_connection(ok(), ok()).unwrap();

            let record = CodeRecord::new(
                &format!("batch-{}-{}", task_id, i),
                &format!("// Concurrent operation {}-{}", task_id, i),
                "rust",
            );

            connection.insert_record(Ok(record), Duration::from_millis(1)).unwrap();
            pool.release_connection(connection, ok(), ok()).unwrap();
        }
    }

    assert_eq!(pool.active_connections(), 0);
    assert!(pool.is_healthy());
    let info = pool.pool_info();
    assert_eq!(info.total_acquired, 50);
    assert_eq!(info.total_released, 50);
}

#[test]
fn test_cozodb_connection_pool_creation() {
    let config = ConnectionPoolConfig {
        url: "cozodb://./test.cozo".to_string(),
        max_connections: 10,
        connection_timeout: Duration::from_secs(5),
        idle_timeout: Duration::from_secs(30),
        health_check_interval: Duration::from_secs(10),
        max_retry_attempts: 3,
        retry_base_delay: Duration::from_millis(100),
    };

    let pool = CozoConnectionPool::new(config, &probes(10)).unwrap();

    assert!(pool.is_healthy());
    assert_eq!(pool.active_connections(), 0);
    assert_eq!(pool.max_connections(), 10);
}

#[test]
fn test_connection_lifecycle_management() {
    let mut pool = new_pool(test_pool_config());

    let mut connection1 = pool.acquire_connection(ok(), ok()).unwrap();
    let mut connection2 = pool.acquire_connection(ok(), ok()).unwrap();

    assert_eq!(pool.active_connections(), 2);
    assert!(connection1.is_healthy(ok()).unwrap());
    assert!(connection2.is_healthy(ok()).unwrap());

    pool.release_connection(connection1, ok(), ok()).unwrap();
    pool.release_connection(connection2, ok(), ok()).unwrap();

    assert_eq!(pool.active_connections(), 0);
}

#[test]
fn test_connection_pool_performance_under_load() {
    let mut pool = new_pool(performance_pool_config());

    let concurrent_tasks = 20;
    let operations_per_task = 50;
    let mut total_operations = 0;

    // Twenty callers hold a connection each at the same time, fifty times over.
    for i in 0..operations_per_task {
        let mut held = Vec::new();
        for task_id in 0..concurrent_tasks {
            let mut connection = pool.acquire_connection(ok(), ok()).unwrap();
            let record = CodeRecord::new(
                &format!("batch-{}-{}", task_id, i),
                &format!("// Concurrent operation {}-{}", task_id, i),
                "rust",
            );
            connection.insert_record(Ok(record), Duration::from_millis(1)).unwrap();
            total_operations += 1;
            held.push(connection);
        }
        assert_eq!(pool.active_connections(), concurrent_tasks);
        for connection in held {
            pool.release_connection(connection, ok(), ok()).unwrap();
        }
    }

    assert_eq!(total_operations, concurrent_tasks * operations_per_task);
    assert!(pool.is_healthy());
    assert_eq!(pool.active_connections(), 0);
}

#[test]
fn test_connection_pool_error_handling_and_recovery() {
    let mut pool = new_pool(robust_pool_config());

    pool.simulate_database_failure().unwrap();

    let connection_result = pool.acquire_connection(ok(), ok());
    assert!(connection_result.is_err());
    assert!(!pool.is_healthy());

    pool.simulate_database_recovery(&probes(10)).unwrap();

    let mut connection = pool.acquire_connection(ok(), ok()).unwrap();
    assert!(connection.is_healthy(ok()).unwrap());

    pool.release_connection(connection, ok(), ok()).unwrap();
    assert_eq!(pool.active_connections(), 0);
}

#[test]
fn acquire_from_an_unhealthy_pool_fails_with_connection_failed() {
    let mut pool = new_pool(test_pool_config());
    pool.simulate_database_failure().unwrap();
    match pool.try_acquire_connection(ok(), ok()) {
        Err(CozoError::ConnectionFailed { message }) => {
            assert_eq!(message, "Connection pool is unhealthy")
        }
        other => panic!("unexpected: {:?}", other),
    }
    assert_eq!(pool.pool_info().idle_connections, 5);
}

#[test]
fn sixth_acquire_of_five_is_refused_as_exhausted() {
    let mut pool = new_pool(test_pool_config());
    let mut held = Vec::new();
    for _ in 0..5 {
        held.push(pool.acquire_connection(ok(), ok()).unwrap());
    }
    // The first attempt finds nothing and asks the caller to wait.
    assert!(pool.try_acquire_connection(ok(), ok()).unwrap().is_none());
    assert_eq!(ACQUIRE_RETRY_WAIT_MILLIS, 10);
    match pool.acquire_connection(ok(), ok()) {
        Err(CozoError::ResourceLimitExhausted { resource, used, limit }) => {
            assert_eq!(resource, "connections");
            assert_eq!(used, 5);
            assert_eq!(limit, 5);
        }
        other => panic!("unexpected: {:?}", other),
    }
    assert_eq!(pool.active_connections(), 5);
    assert_eq!(pool.pool_info().idle_connections, 0);
}

#[test]
fn counters_add_up_to_what_the_pool_owns() {
    let mut pool = new_pool(test_pool_config());
    let a = pool.acquire_connection(ok(), ok()).unwrap();
    let b = pool.acquire_connection(ok(), ok()).unwrap();
    let info = pool.pool_info();
    assert_eq!(info.active_connections, 2);
    assert_eq!(info.idle_connections, 3);
    assert_eq!(info.active_connections + info.idle_connections, 5);
    assert_eq!(info.pool_size, 5);
    pool.release_connection(a, ok(), ok()).unwrap();
    pool.release_connection(b, failed(), ok()).unwrap();
    let info = pool.pool_info();
    assert_eq!(info.active_connections, 0);
    assert_eq!(info.idle_connections, 5);
    assert_eq!(info.total_acquired, 2);
    assert_eq!(info.total_released, 2);
}

#[test]
fn acquires_then_as_many_releases_leave_everything_idle() {
    let mut pool = new_pool(test_pool_config());
    for n in 0..=5usize {
        let mut held = Vec::new();
        for _ in 0..n {
            held.push(pool.acquire_connection(ok(), ok()).unwrap());
        }
        for connection in held {
            pool.release_connection(connection, ok(), ok()).unwrap();
        }
        assert_eq!(pool.active_connections(), 0);
        assert_eq!(pool.pool_info().idle_connections, 5);
    }
}

#[test]
fn metrics_do_not_change_between_two_readings() {
    let mut pool = new_pool(test_pool_config());
    let _held = pool.acquire_connection(ok(), ok()).unwrap();
    let first = pool.performance_metrics();
    let second = pool.performance_metrics();
    assert_eq!(first, second);
    assert_eq!(first.active_connections, 1);
    assert_eq!(first.idle_connections, 4);
    assert_eq!(first.total_acquired, 1);
    assert_eq!(first.total_released, 0);
    assert_eq!(first.utilization_rate, Ratio { numerator: 1, denominator: 5 });
    assert!(first.is_healthy);
}

#[test]
fn pool_creation_fails_when_a_first_check_is_late_or_missing() {
    let mut outcomes = probes(5);
    outcomes[3] = late();
    match CozoConnectionPool::new(test_pool_config(), &outcomes) {
        Err(CozoError::ConnectionFailed { message }) => assert_eq!(message, "Health check timeout"),
        other => panic!("unexpected: {:?}", other.map(|_| ())),
    }
    assert!(CozoConnectionPool::new(test_pool_config(), &probes(4)).is_err());
    assert!(CozoConnectionPool::new(test_pool_config(), &probes(6)).is_ok());
}

#[test]
fn an_unhealthy_candidate_is_replaced_and_not_lent() {
    let mut pool = new_pool(test_pool_config());
    // First attempt: the candidate fails its check and is replaced.
    assert!(pool.try_acquire_connection(failed(), ok()).unwrap().is_none());
    let info = pool.pool_info();
    assert_eq!((info.active_connections, info.idle_connections), (0, 5));
    // Second attempt: the replacement is lent.
    let connection = pool.acquire_connection(ok(), ok()).unwrap();
    assert_eq!(pool.active_connections(), 1);
    pool.release_connection(connection, ok(), ok()).unwrap();
    assert_eq!(pool.active_connections(), 0);
}

#[test]
fn a_replacement_that_cannot_be_made_fails_the_acquire() {
    let mut config = test_pool_config();
    config.max_connections = 2;
    let mut pool = new_pool(config);
    match pool.acquire_connection(failed(), late()) {
        Err(CozoError::ConnectionFailed { message }) => assert_eq!(message, "Health check timeout"),
        other => panic!("unexpected: {:?}", other.map(|_| ())),
    }
    // The place stays empty: one of two is left to lend, so half is available.
    let info = pool.pool_info();
    assert_eq!((info.active_connections, info.idle_connections), (0, 2));
    pool.health_monitor_cycle();
    assert!(pool.is_healthy());
    let _one = pool.acquire_connection(ok(), ok()).unwrap();
    match pool.acquire_connection(ok(), ok()) {
        Err(CozoError::ResourceLimitExhausted { used, limit, .. }) => {
            assert_eq!((used, limit), (1, 2))
        }
        other => panic!("unexpected: {:?}", other.map(|_| ())),
    }
}

#[test]
fn release_without_a_loan_is_an_internal_error() {
    let mut pool = new_pool(test_pool_config());
    let mut other = new_pool(test_pool_config());
    let foreign = other.acquire_connection(ok(), ok()).unwrap();
    match pool.release_connection(foreign, ok(), ok()) {
        Err(CozoError::Internal { message }) => assert_eq!(message, "No connection is on loan"),
        other => panic!("unexpected: {:?}", other),
    }
    assert_eq!(pool.pool_info().idle_connections, 5);
}

#[test]
fn health_monitor_marks_a_pool_by_the_share_that_is_available() {
    let mut config = test_pool_config();
    config.max_connections = 4;
    let mut pool = new_pool(config);
    let a = pool.acquire_connection(ok(), ok()).unwrap();
    let _b = pool.acquire_connection(ok(), ok()).unwrap();
    pool.health_monitor_cycle();
    assert!(pool.is_healthy()); // 2 of 4
    let _c = pool.acquire_connection(ok(), ok()).unwrap();
    pool.health_monitor_cycle();
    assert!(!pool.is_healthy()); // 1 of 4
    pool.release_connection(a, ok(), ok()).unwrap();
    pool.health_monitor_cycle();
    assert!(pool.is_healthy());

    let mut empty_config = test_pool_config();
    empty_config.max_connections = 0;
    let mut empty = new_pool(empty_config);
    empty.health_monitor_cycle();
    assert!(!empty.is_healthy());
    assert_eq!(
        empty.performance_metrics().utilization_rate,
        Ratio { numerator: 0, denominator: 1 }
    );
}

#[test]
fn default_pool_configuration() {
    let config = ConnectionPoolConfig::default();
    assert_eq!(config.url, "cozodb://./cozo.db");
    assert_eq!(config.max_connections, 10);
    assert_eq!(config.connection_timeout, Duration::from_secs(5));
    assert_eq!(config.idle_timeout, Duration::from_secs(30));
    assert_eq!(config.health_check_interval, Duration::from_secs(10));
    assert_eq!(config.max_retry_attempts, 3);
    assert_eq!(config.retry_base_delay, Duration::from_millis(100));
}

#[test]
fn a_replacement_takes_the_place_of_the_connection_it_replaces() {
    let mut pool = new_pool(test_pool_config());
    let before = pool.owned_ids();
    assert_eq!(before.len(), 5);
    assert_eq!(pool.available_count(), 5);
    // The connection made last is tried first, found unhealthy and replaced.
    assert!(pool.try_acquire_connection(failed(), ok()).unwrap().is_none());
    let after = pool.owned_ids();
    assert_eq!(pool.available_count(), 5);
    assert_eq!(after.len(), 5);
    assert_eq!(after[..4], before[..4]);
    assert_ne!(after[4], before[4]);
    let lent = pool.acquire_connection(ok(), ok()).unwrap();
    assert_eq!(lent.connection_id(), &after[4]);
    assert_eq!(pool.available_count(), 4);

    // A returned connection that fails its check is replaced where it stood.
    let first = pool.acquire_connection(ok(), ok()).unwrap();
    let gone = first.connection_id().clone();
    let place = after.iter().position(|id| *id == gone).unwrap();
    pool.release_connection(first, failed(), ok()).unwrap();
    let last = pool.owned_ids();
    assert_eq!(last.len(), 5);
    assert!(!last.contains(&gone));
    for (i, id) in last.iter().enumerate() {
        if i != place {
            assert_eq!(*id, after[i]);
        }
    }
    assert_eq!(pool.available_count(), 4);
    assert_eq!(pool.active_connections(), 1);

    // One that comes back while no replacement can be made leaves its place empty.
    assert!(pool.release_connection(lent, failed(), late()).is_err());
    assert_eq!(pool.available_count(), 4);
    assert_eq!(pool.active_connections(), 0);
    assert_eq!(pool.pool_info().idle_connections, 5);
    assert_eq!(pool.owned_ids(), last);
}

#[test]
fn a_fully_lent_pool_is_exhausted_whatever_its_mark() {
    let mut pool = new_pool(test_pool_config());
    let mut held = Vec::new();
    for _ in 0..5 {
        held.push(pool.acquire_connection(ok(), ok()).unwrap());
    }
    // One sample of a pool with nothing available marks it unhealthy.
    pool.health_monitor_cycle();
    assert!(!pool.is_healthy());
    assert!(pool.try_acquire_connection(ok(), ok()).unwrap().is_none());
    match pool.acquire_connection(ok(), ok()) {
        Err(CozoError::ResourceLimitExhausted { resource, used, limit }) => {
            assert_eq!(resource, "connections");
            assert_eq!((used, limit), (5, 5));
        }
        other => panic!("unexpected: {:?}", other.map(|_| ())),
    }
    pool.simulate_database_failure().unwrap();
    assert!(matches!(
        pool.acquire_connection(ok(), ok()),
        Err(CozoError::ResourceLimitExhausted { used: 5, limit: 5, .. })
    ));
    // With something to lend again, the mark decides.
    pool.release_connection(held.pop().unwrap(), ok(), ok()).unwrap();
    assert!(matches!(
        pool.acquire_connection(ok(), ok()),
        Err(CozoError::ConnectionFailed { .. })
    ));
    assert_eq!(pool.available_count(), 1);
    pool.health_monitor_cycle();
    assert!(!pool.is_healthy()); // 1 of 5
    for _ in 0..2 {
        pool.release_connection(held.pop().unwrap(), ok(), ok()).unwrap();
    }
    pool.health_monitor_cycle();
    assert!(pool.is_healthy()); // 3 of 5
    assert!(pool.acquire_connection(ok(), ok()).is_ok());
}

#[test]
fn the_pool_says_when_a_replacement_will_be_made() {
    let mut pool = new_pool(test_pool_config());
    assert!(!pool.acquire_needs_replacement(ok()));
    assert!(pool.acquire_needs_replacement(failed()));
    assert!(pool.acquire_needs_replacement(late()));
    let connection = pool.acquire_connection(ok(), ok()).unwrap();
    assert!(!pool.release_needs_replacement(&connection, ok()));
    assert!(pool.release_needs_replacement(&connection, failed()));
    assert!(connection.passes(ok()));
    assert!(!connection.passes(late()));
    pool.simulate_database_failure().unwrap();
    assert!(!pool.acquire_needs_replacement(failed()));
    assert!(pool.release_needs_replacement(&connection, late()));
    pool.release_connection(connection, ok(), ok()).unwrap();

    let mut empty = new_pool(ConnectionPoolConfig { max_connections: 1, ..test_pool_config() });
    let other = empty.acquire_connection(ok(), ok()).unwrap();
    assert!(!empty.acquire_needs_replacement(failed()));
    empty.release_connection(other, ok(), ok()).unwrap();
    let foreign = pool.acquire_connection(ok(), ok());
    assert!(foreign.is_err());
    let lent = empty.acquire_connection(ok(), ok()).unwrap();
    assert!(!pool.release_needs_replacement(&lent, failed()));
}

#[test]
fn the_pool_keeps_its_identifier_and_date() {
    let mut pool = new_pool(test_pool_config());
    let made = pool.pool_info();
    let connection = pool.acquire_connection(ok(), ok()).unwrap();
    pool.release_connection(connection, failed(), ok()).unwrap();
    pool.simulate_database_failure().unwrap();
    pool.simulate_database_recovery(&probes(5)).unwrap();
    let now = pool.pool_info();
    assert_eq!(now.pool_id, made.pool_id);
    assert_eq!(now.created_at, made.created_at);
    assert_eq!(now.pool_size, 5);
}

//! One connection to the store: its health, and what was done through it.

use vstd::prelude::*;
use tokio::time::Instant;
use crate::cozodb::error::{CozoError, CozoErrorView};
use crate::cozodb::query::QueryStream;
use crate::cozodb::record::{CodeRecord, CodeRecordView};
use crate::ids::{fresh_id_text, is_hyphenated};
use crate::time::{clock_now, Duration};

verus! {

/// The limits that one connection works under.
#[derive(Clone, Copy, Debug, PartialEq, Eq, Structural)]
pub struct ConnectionConfig {
    /// How long a health check may take.
    pub connection_timeout: Duration,
    /// How long a cursor stays open.
    pub max_query_time: Duration,
    /// How often a caller should try a failed operation again.
    pub retry_attempts: usize,
    /// How long a caller should wait before the first new try.
    pub retry_delay: Duration,
}

impl Default for ConnectionConfig {
    /// Five seconds for a health check, thirty for a query, three new tries a
    /// tenth of a second apart.
    fn default() -> (config: ConnectionConfig)
        ensures
            config.connection_timeout.nanos == 5_000_000_000u128,
            config.max_query_time.nanos == 30_000_000_000u128,
            config.retry_attempts == 3,
            config.retry_delay.nanos == 100_000_000u128,
    {
        ConnectionConfig {
            connection_timeout: Duration::from_secs(5),
            max_query_time: Duration::from_secs(30),
            retry_attempts: 3,
            retry_delay: Duration::from_millis(100),
        }
    }
}

/// What a liveness probe of the store came to: whether the store answered,
/// and how long the probe took.
#[derive(Clone, Copy, Debug, PartialEq, Eq, Structural)]
pub struct ProbeOutcome {
    pub succeeded: bool,
    pub elapsed: Duration,
}

impl ProbeOutcome {
    /// The probe took longer than `timeout` allows.
    pub open spec fn timed_out(self, timeout: Duration) -> bool {
        self.elapsed.nanos > timeout.nanos
    }

    /// The store answered, and in time.
    pub open spec fn passed(self, timeout: Duration) -> bool {
        self.succeeded && !self.timed_out(timeout)
    }

    /// Whether the probe took longer than `timeout` allows.
    pub fn is_timed_out(&self, timeout: &Duration) -> (late: bool)
        ensures
            late == self.timed_out(*timeout),
    {
        self.elapsed.exceeds(timeout)
    }

    /// Whether the store answered, and in time.
    pub fn has_passed(&self, timeout: &Duration) -> (ok: bool)
        ensures
            ok == self.passed(*timeout),
    {
        self.succeeded && !self.elapsed.exceeds(timeout)
    }
}

/// The kinds of operation that a connection counts.
#[derive(Clone, Copy, Debug, PartialEq, Eq, Structural)]
pub enum OperationKind {
    Insert,
    Fetch,
    Update,
    Stream,
}

/// What was done through one connection since its counters were last reset.
#[derive(Clone, Copy, Debug, PartialEq, Eq, Structural)]
pub struct ConnectionStats {
    pub queries_executed: u64,
    pub total_query_time: Duration,
    pub records_inserted: u64,
    pub records_updated: u64,
    pub records_queried: u64,
}

impl ConnectionStats {
    /// Counters that have counted nothing.
    pub open spec fn zero() -> ConnectionStats {
        ConnectionStats {
            queries_executed: 0,
            total_query_time: Duration { nanos: 0 },
            records_inserted: 0,
            records_updated: 0,
            records_queried: 0,
        }
    }

    /// One more operation that took `elapsed` can be counted without a
    /// counter running over.
    pub open spec fn has_room(self, elapsed: Duration) -> bool {
        &&& self.queries_executed < u64::MAX
        &&& self.records_inserted < u64::MAX
        &&& self.records_updated < u64::MAX
        &&& self.records_queried < u64::MAX
        &&& self.total_query_time.nanos + elapsed.nanos <= u128::MAX
    }

    /// The counters after one more operation of `kind` that took `elapsed`.
    /// Opening a cursor counts as an operation, but as no record.
    pub open spec fn after(self, kind: OperationKind, elapsed: Duration) -> ConnectionStats {
        let counted = ConnectionStats {
            queries_executed: (self.queries_executed + 1) as u64,
            total_query_time: Duration {
                nanos: (self.total_query_time.nanos + elapsed.nanos) as u128,
            },
            ..self
        };
        match kind {
            OperationKind::Insert => ConnectionStats {
                records_inserted: (self.records_inserted + 1) as u64,
                ..counted
            },
            OperationKind::Fetch => ConnectionStats {
                records_queried: (self.records_queried + 1) as u64,
                ..counted
            },
            OperationKind::Update => ConnectionStats {
                records_updated: (self.records_updated + 1) as u64,
                ..counted
            },
            OperationKind::Stream => counted,
        }
    }
}

impl Default for ConnectionStats {
    fn default() -> (stats: ConnectionStats)
        ensures
            stats == ConnectionStats::zero(),
    {
        ConnectionStats {
            queries_executed: 0,
            total_query_time: Duration::from_nanos(0),
            records_inserted: 0,
            records_updated: 0,
            records_queried: 0,
        }
    }
}

/// The health of a connection as its last check left it.
#[derive(Debug)]
struct HealthStatus {
    is_healthy: bool,
    last_check: Instant,
    error_count: usize,
    last_error: Option<String>,
}

/// One connection to the store.
#[derive(Debug)]
pub struct CozoConnection {
    /// The connection's random identifier.
    pub id: String,
    /// Where the store is.
    pub database_url: String,
    config: ConnectionConfig,
    health_status: HealthStatus,
    stats: ConnectionStats,
    last_activity: Instant,
}

/// What a [`CozoConnection`] holds, but for its two readings of the clock.
pub struct ConnectionView {
    pub id: Seq<char>,
    pub database_url: Seq<char>,
    pub config: ConnectionConfig,
    pub is_healthy: bool,
    /// Failed checks in a row.
    pub error_count: usize,
    pub last_error: Option<Seq<char>>,
    pub stats: ConnectionStats,
}

/// The error of a health check that took too long.
pub open spec fn health_check_timeout() -> CozoErrorView {
    CozoErrorView::ConnectionFailed { message: "Health check timeout"@ }
}

impl ConnectionView {
    /// A connection as it is made: healthy, with nothing counted.
    pub open spec fn established(
        id: Seq<char>,
        database_url: Seq<char>,
        config: ConnectionConfig,
    ) -> ConnectionView {
        ConnectionView {
            id,
            database_url,
            config,
            is_healthy: true,
            error_count: 0,
            last_error: None,
            stats: ConnectionStats::zero(),
        }
    }

    /// The connection after a health check with the outcome `probe`. A probe
    /// that passed clears the errors. One that failed or came late counts as
    /// one more error, and its message is kept.
    pub open spec fn after_health_check(self, probe: ProbeOutcome) -> ConnectionView {
        if probe.passed(self.config.connection_timeout) {
            ConnectionView { is_healthy: true, error_count: 0, last_error: None, ..self }
        } else {
            ConnectionView {
                is_healthy: false,
                error_count: (self.error_count + 1) as usize,
                last_error: Some(
                    if probe.timed_out(self.config.connection_timeout) {
                        "Health check timeout"@
                    } else {
                        "Health check failed"@
                    },
                ),
                ..self
            }
        }
    }

    /// The connection after one more operation of `kind` that took `elapsed`.
    pub open spec fn after_operation(self, kind: OperationKind, elapsed: Duration) -> ConnectionView {
        ConnectionView { stats: self.stats.after(kind, elapsed), ..self }
    }
}

impl View for CozoConnection {
    type V = ConnectionView;

    closed spec fn view(&self) -> ConnectionView {
        ConnectionView {
            id: self.id@,
            database_url: self.database_url@,
            config: self.config,
            is_healthy: self.health_status.is_healthy,
            error_count: self.health_status.error_count,
            last_error: match self.health_status.last_error {
                Some(message) => Some(message@),
                None => None,
            },
            stats: self.stats,
        }
    }
}

impl CozoConnection {
    /// The reading of the clock at the connection's last activity.
    pub closed spec fn last_activity_reading(&self) -> Instant {
        self.last_activity
    }

    /// Makes a connection to the store at `database_url` and checks its health
    /// once, with the outcome `probe`. The connection gets a random
    /// identifier, in its printed form. A check that took too long fails the whole; a probe that
    /// failed in time leaves a connection that is marked unhealthy.
    pub fn new(database_url: &str, config: ConnectionConfig, probe: ProbeOutcome) -> (made: Result<
        CozoConnection,
        CozoError,
    >)
        ensures
            match made {
                Ok(connection) => {
                    &&& !probe.timed_out(config.connection_timeout)
                    &&& is_hyphenated(connection@.id)
                    &&& connection@ == ConnectionView::established(
                        connection@.id,
                        database_url@,
                        config,
                    ).after_health_check(probe)
                },
                Err(e) => probe.timed_out(config.connection_timeout) && e@
                    == health_check_timeout(),
            },
    {
        let now = clock_now();
        let mut connection = CozoConnection {
            id: fresh_id_text(),
            database_url: database_url.to_owned(),
            config,
            health_status: HealthStatus {
                is_healthy: true,
                last_check: now,
                error_count: 0,
                last_error: None,
            },
            stats: ConnectionStats::default(),
            last_activity: now,
        };
        match connection.health_check(probe) {
            Ok(()) => Ok(connection),
            Err(e) => Err(e),
        }
    }

    /// Takes down the outcome of one liveness probe. The check fails, with
    /// [`health_check_timeout`], exactly if the probe took longer than the
    /// connection's timeout. The time of the check and of the last activity
    /// become the current time.
    pub fn health_check(&mut self, probe: ProbeOutcome) -> (checked: Result<(), CozoError>)
        requires
            old(self)@.error_count < usize::MAX,
        ensures
            final(self)@ == old(self)@.after_health_check(probe),
            checked is Err <==> probe.timed_out(old(self)@.config.connection_timeout),
            checked matches Err(e) ==> e@ == health_check_timeout(),
    {
        let late = probe.is_timed_out(&self.config.connection_timeout);
        self.health_status.last_check = clock_now();
        if probe.succeeded && !late {
            self.health_status.is_healthy = true;
            self.health_status.error_count = 0;
            self.health_status.last_error = None;
        } else {
            self.health_status.is_healthy = false;
            self.health_status.error_count = self.health_status.error_count + 1;
            if late {
                self.health_status.last_error = Some("Health check timeout".to_owned());
            } else {
                self.health_status.last_error = Some("Health check failed".to_owned());
            }
        }
        self.last_activity = clock_now();
        if late {
            Err(CozoError::connection_failed("Health check timeout"))
        } else {
            Ok(())
        }
    }

    /// Checks the connection's health with the outcome `probe` and says what
    /// the check found. Nothing is remembered from earlier checks.
    pub fn is_healthy(&mut self, probe: ProbeOutcome) -> (healthy: Result<bool, CozoError>)
        requires
            old(self)@.error_count < usize::MAX,
        ensures
            final(self)@ == old(self)@.after_health_check(probe),
            match healthy {
                Ok(flag) => !probe.timed_out(old(self)@.config.connection_timeout) && flag
                    == probe.succeeded,
                Err(e) => probe.timed_out(old(self)@.config.connection_timeout) && e@
                    == health_check_timeout(),
            },
    {
        match self.health_check(probe) {
            Ok(()) => Ok(self.health_status.is_healthy),
            Err(e) => Err(e),
        }
    }

    /// Counts one operation of `kind` that took `elapsed`.
    fn record_operation(&mut self, kind: OperationKind, elapsed: Duration)
        requires
            old(self)@.stats.has_room(elapsed),
        ensures
            final(self)@ == old(self)@.after_operation(kind, elapsed),
            final(self).last_activity_reading() == old(self).last_activity_reading(),
    {
        self.stats.queries_executed = self.stats.queries_executed + 1;
        self.stats.total_query_time = self.stats.total_query_time.plus(&elapsed);
        match kind {
            OperationKind::Insert => {
                self.stats.records_inserted = self.stats.records_inserted + 1;
            },
            OperationKind::Fetch => {
                self.stats.records_queried = self.stats.records_queried + 1;
            },
            OperationKind::Update => {
                self.stats.records_updated = self.stats.records_updated + 1;
            },
            OperationKind::Stream => {},
        }
    }

    /// Takes down an insert that the store was asked for through this
    /// connection: `outcome` is what the store answered, after `elapsed`. The
    /// insert is counted whether it failed or not, and the store's answer is
    /// handed on as it is.
    pub fn insert_record(&mut self, outcome: Result<CodeRecord, CozoError>, elapsed: Duration) -> (answer:
        Result<CodeRecord, CozoError>)
        requires
            old(self)@.stats.has_room(elapsed),
        ensures
            answer == outcome,
            final(self)@ == old(self)@.after_operation(OperationKind::Insert, elapsed),
    {
        self.record_operation(OperationKind::Insert, elapsed);
        self.last_activity = clock_now();
        outcome
    }

    /// Takes down a fetch by identifier that the store was asked for through
    /// this connection: `outcome` is what the store answered, after `elapsed`.
    /// The fetch is counted whether it failed or not, and the store's answer
    /// is handed on as it is.
    pub fn get_record_by_id(
        &mut self,
        outcome: Result<CodeRecord, CozoError>,
        elapsed: Duration,
    ) -> (answer: Result<CodeRecord, CozoError>)
        requires
            old(self)@.stats.has_room(elapsed),
        ensures
            answer == outcome,
            final(self)@ == old(self)@.after_operation(OperationKind::Fetch, elapsed),
    {
        self.record_operation(OperationKind::Fetch, elapsed);
        self.last_activity = clock_now();
        outcome
    }

    /// Takes down an update that the store was asked for through this
    /// connection: `outcome` is what the store answered, after `elapsed`. The
    /// update is counted whether it failed or not, and the store's answer is
    /// handed on as it is.
    pub fn update_record(&mut self, outcome: Result<CodeRecord, CozoError>, elapsed: Duration) -> (answer:
        Result<CodeRecord, CozoError>)
        requires
            old(self)@.stats.has_room(elapsed),
        ensures
            answer == outcome,
            final(self)@ == old(self)@.after_operation(OperationKind::Update, elapsed),
    {
        self.record_operation(OperationKind::Update, elapsed);
        self.last_activity = clock_now();
        outcome
    }

    /// Takes down a query that the store was asked for through this
    /// connection, and opens a cursor over its records: `outcome` is what the
    /// store answered, after `elapsed`. The query is counted whether it failed
    /// or not. The cursor starts at the first record and stays open for the
    /// connection's `max_query_time`; the store's error is handed on as it is.
    pub fn stream_records(
        &mut self,
        outcome: Result<Vec<CodeRecord>, CozoError>,
        elapsed: Duration,
    ) -> (opened: Result<QueryStream, CozoError>)
        requires
            old(self)@.stats.has_room(elapsed),
        ensures
            final(self)@ == old(self)@.after_operation(OperationKind::Stream, elapsed),
            match opened {
                Ok(stream) => {
                    &&& outcome matches Ok(records)
                    &&& stream@.records == Seq::new(records@.len(), |i: int| records@[i]@)
                    &&& stream@.position == 0
                    &&& stream@.timeout == old(self)@.config.max_query_time
                    &&& !stream@.expired
                },
                Err(e) => outcome == Err::<Vec<CodeRecord>, CozoError>(e),
            },
    {
        self.record_operation(OperationKind::Stream, elapsed);
        self.last_activity = clock_now();
        match outcome {
            Ok(records) => Ok(QueryStream::new(records, self.config.max_query_time)),
            Err(e) => Err(e),
        }
    }

    /// The connection's identifier.
    pub fn connection_id(&self) -> (id: &String)
        ensures
            id@ == self@.id,
    {
        &self.id
    }

    /// Whether a health check with the outcome `probe` finds the connection
    /// healthy: the store answered, within the connection's timeout.
    pub fn passes(&self, probe: ProbeOutcome) -> (passed: bool)
        ensures
            passed == probe.passed(self@.config.connection_timeout),
    {
        probe.has_passed(&self.config.connection_timeout)
    }

    /// How many health checks in a row have failed.
    pub fn error_count(&self) -> (count: usize)
        ensures
            count == self@.error_count,
    {
        self.health_status.error_count
    }

    /// What was done through this connection since the last reset.
    pub fn stats(&self) -> (stats: ConnectionStats)
        ensures
            stats == self@.stats,
    {
        self.stats
    }

    /// The reading of the clock at the connection's last activity.
    pub fn last_activity(&self) -> (reading: Instant)
        ensures
            reading == self.last_activity_reading(),
    {
        self.last_activity
    }

    /// Sets the counters back to zero.
    pub fn reset_stats(&mut self)
        ensures
            final(self)@ == (ConnectionView { stats: ConnectionStats::zero(), ..old(self)@ }),
            final(self).last_activity_reading() == old(self).last_activity_reading(),
    {
        self.stats = ConnectionStats::default();
    }
}

} // verus!

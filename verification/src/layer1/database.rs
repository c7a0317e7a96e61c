//! A stand-in for a database provider, for trying out the layers above it.

use vstd::prelude::*;
use tokio::time::Instant;
use rand::Rng;
use serde_json::Value;
use std::collections::HashMap;
use uuid::Uuid;
use crate::cozodb::record::json_string;
use crate::layer1::sealed::Sealed;
use crate::layer1::types::DatabaseId;
use crate::text::{
    after_spaces, after_word, chars_of, contains, decimal, decimal_digits, find_from, first_from,
    occurs_in, parse_usize, parsed_usize, skip_spaces, skip_word,
};
use crate::time::{
    clock_elapsed, clock_now, rfc3339_now, utc_now, Duration, Timestamp, NANOS_PER_MILLI,
};

verus! {

/// What the stand-in provider reports when something fails.
#[derive(Debug)]
pub enum MockDatabaseError {
    ConnectionFailed(String),
    QueryFailed(String),
    Unavailable(String),
    InvalidConnectionString(String),
    ResourceLimitExhausted { resource: String, used: usize, limit: usize },
    /// A failure of the stand-in itself, such as an operation that took far
    /// too long.
    MockError { message: String },
}

/// What a [`MockDatabaseError`] holds, with each text as a sequence of
/// characters.
pub enum MockDatabaseErrorView {
    ConnectionFailed(Seq<char>),
    QueryFailed(Seq<char>),
    Unavailable(Seq<char>),
    InvalidConnectionString(Seq<char>),
    ResourceLimitExhausted { resource: Seq<char>, used: usize, limit: usize },
    MockError { message: Seq<char> },
}

impl View for MockDatabaseError {
    type V = MockDatabaseErrorView;

    open spec fn view(&self) -> MockDatabaseErrorView {
        match *self {
            MockDatabaseError::ConnectionFailed(message) => MockDatabaseErrorView::ConnectionFailed(
                message@,
            ),
            MockDatabaseError::QueryFailed(message) => MockDatabaseErrorView::QueryFailed(message@),
            MockDatabaseError::Unavailable(message) => MockDatabaseErrorView::Unavailable(message@),
            MockDatabaseError::InvalidConnectionString(message) => {
                MockDatabaseErrorView::InvalidConnectionString(message@)
            },
            MockDatabaseError::ResourceLimitExhausted { resource, used, limit } => {
                MockDatabaseErrorView::ResourceLimitExhausted { resource: resource@, used, limit }
            },
            MockDatabaseError::MockError { message } => MockDatabaseErrorView::MockError {
                message: message@,
            },
        }
    }
}

impl MockDatabaseErrorView {
    /// The error in words: what kind of failure it is, and its message.
    pub open spec fn description(self) -> Seq<char> {
        match self {
            MockDatabaseErrorView::ConnectionFailed(message) => "Connection failed: "@ + message,
            MockDatabaseErrorView::QueryFailed(message) => "Query failed: "@ + message,
            MockDatabaseErrorView::Unavailable(message) => "Database unavailable: "@ + message,
            MockDatabaseErrorView::InvalidConnectionString(message) => {
                "Invalid connection string: "@ + message
            },
            MockDatabaseErrorView::ResourceLimitExhausted { resource, used, limit } => {
                "Resource limit exhausted: "@ + resource + " used "@ + decimal_digits(
                    used as nat,
                ) + "/"@ + decimal_digits(limit as nat)
            },
            MockDatabaseErrorView::MockError { message } => "Mock error: "@ + message,
        }
    }
}

impl MockDatabaseError {
    /// The error in words.
    pub fn to_string(&self) -> (text: String)
        ensures
            text@ == self@.description(),
    {
        let (head, tail) = match self {
            MockDatabaseError::ConnectionFailed(message) => ("Connection failed: ", message),
            MockDatabaseError::QueryFailed(message) => ("Query failed: ", message),
            MockDatabaseError::Unavailable(message) => ("Database unavailable: ", message),
            MockDatabaseError::InvalidConnectionString(message) => (
                "Invalid connection string: ",
                message,
            ),
            MockDatabaseError::ResourceLimitExhausted { resource, used, limit } => {
                let mut text = String::from_str("Resource limit exhausted: ");
                text.append(resource.as_str());
                text.append(" used ");
                text.append(decimal(*used as u128).as_str());
                text.append("/");
                text.append(decimal(*limit as u128).as_str());
                return text;
            },
            MockDatabaseError::MockError { message } => ("Mock error: ", message),
        };
        let mut text = String::from_str(head);
        text.append(tail.as_str());
        text
    }

    /// Whether trying again may help: always.
    pub fn is_retryable(&self) -> (retryable: bool)
        ensures
            retryable,
    {
        true
    }
}

/// How bad a degraded state is.
#[derive(Debug, Clone, Copy, PartialEq, Eq, Structural)]
pub enum Severity {
    Warning,
    Error,
    Critical,
}

/// The state of a provider's health.
#[derive(Debug)]
pub enum HealthStatus {
    Healthy,
    Degraded { reason: String, severity: Severity },
    Unhealthy { reason: String },
}

/// What a [`HealthStatus`] holds, with each text as a sequence of characters.
pub enum HealthStatusView {
    Healthy,
    Degraded { reason: Seq<char>, severity: Severity },
    Unhealthy { reason: Seq<char> },
}

impl View for HealthStatus {
    type V = HealthStatusView;

    open spec fn view(&self) -> HealthStatusView {
        match *self {
            HealthStatus::Healthy => HealthStatusView::Healthy,
            HealthStatus::Degraded { reason, severity } => HealthStatusView::Degraded {
                reason: reason@,
                severity,
            },
            HealthStatus::Unhealthy { reason } => HealthStatusView::Unhealthy { reason: reason@ },
        }
    }
}

/// What a record's content is.
#[derive(Debug, Clone, Copy, PartialEq, Eq, Structural)]
pub enum ContentType {
    Code,
    Documentation,
    Configuration,
    Data,
}

/// How urgent a record is.
#[derive(Debug, Clone, Copy, PartialEq, Eq, Structural)]
pub enum Priority {
    Low,
    Normal,
    High,
    Critical,
}

/// Marks an implementation as a stand-in that must not reach production.
pub trait MockImplementation: Sealed {

}

impl MockImplementation for MockDatabaseProvider {

}

/// The identifier of a record of the stand-in.
#[derive(Debug, Clone, Copy, PartialEq, Eq, Hash)]
pub struct RecordId(pub Uuid);

/// The identifier of a summary.
#[derive(Debug, Clone, Copy, PartialEq, Eq, Hash)]
pub struct SummaryId(pub Uuid);

/// What a record holds.
#[derive(Debug)]
pub enum Content {
    Text(String),
    Binary(Vec<u8>),
    Structured(Value),
}

/// How far the processing of a record has come.
#[derive(Debug)]
pub enum ProcessingState {
    Pending,
    InProgress { started_at: Timestamp },
    Completed { completed_at: Timestamp, summary_id: SummaryId },
    Failed { failed_at: Timestamp, error: String, retry_count: u32 },
    Skipped { skipped_at: Timestamp, reason: String },
}

/// What is known about a record besides its content.
#[derive(Debug)]
pub struct RecordMetadata {
    pub source: String,
    pub content_type: ContentType,
    pub size_bytes: usize,
    pub processing_state: ProcessingState,
    pub priority: Priority,
    pub custom_fields: HashMap<String, Value>,
}

/// A record as the stand-in keeps it.
#[derive(Debug)]
pub struct DatabaseRecord {
    pub id: RecordId,
    pub content: Content,
    pub metadata: RecordMetadata,
    pub created_at: Timestamp,
    pub updated_at: Timestamp,
}

/// What a connection of the stand-in tells about itself.
#[derive(Debug, Clone, Copy)]
pub struct ConnectionInfo {
    pub database_id: DatabaseId,
    pub created_at: Timestamp,
    pub last_used: Timestamp,
    pub query_count: u64,
    pub active: bool,
}

/// A connection that the stand-in has handed out.
#[derive(Debug)]
pub struct MockDatabaseConnection {
    pub id: DatabaseId,
    pub created_at: Timestamp,
    pub healthy: bool,
    pub query_count: u64,
    pub last_used: Timestamp,
}

impl MockDatabaseConnection {
    /// A healthy connection under `id`, made now, that has run no query.
    fn new(id: DatabaseId) -> (connection: MockDatabaseConnection)
        ensures
            connection.id == id,
            connection.healthy,
            connection.query_count == 0,
    {
        let now = utc_now();
        MockDatabaseConnection { id, created_at: now, healthy: true, query_count: 0, last_used: now }
    }

    /// Counts one more query and notes the current time as the time of the
    /// last use. The count starts again at zero when it has run through all
    /// of `u64`.
    pub fn record_query(&mut self)
        ensures
            final(self).query_count == if old(self).query_count == u64::MAX {
                0
            } else {
                old(self).query_count + 1
            },
            final(self).id == old(self).id,
            final(self).created_at == old(self).created_at,
            final(self).healthy == old(self).healthy,
    {
        self.query_count = if self.query_count == u64::MAX {
            0
        } else {
            self.query_count + 1
        };
        self.last_used = utc_now();
    }

    /// Whether the connection is healthy. The check never fails.
    pub fn is_healthy(&self) -> (outcome: Result<bool, MockDatabaseError>)
        ensures
            outcome matches Ok(healthy) && healthy == self.healthy,
    {
        Ok(self.healthy)
    }

    /// Closes the connection: it is unhealthy from now on. Closing never
    /// fails.
    pub fn close(&mut self) -> (outcome: Result<(), MockDatabaseError>)
        ensures
            outcome is Ok,
            !final(self).healthy,
            final(self).id == old(self).id,
            final(self).created_at == old(self).created_at,
            final(self).query_count == old(self).query_count,
            final(self).last_used == old(self).last_used,
    {
        self.healthy = false;
        Ok(())
    }

    /// What the connection tells about itself: when it was made, how many
    /// queries it has run and whether it is healthy, under a fresh random
    /// identifier and with the current time as the time of its last use.
    pub fn connection_info(&self) -> (info: ConnectionInfo)
        ensures
            info.created_at == self.created_at,
            info.query_count == self.query_count,
            info.active == self.healthy,
    {
        ConnectionInfo {
            database_id: DatabaseId::new(),
            created_at: self.created_at,
            last_used: utc_now(),
            query_count: self.query_count,
            active: self.healthy,
        }
    }
}

/// The number that follows the first `LIMIT` of `query`: what stands between
/// that `LIMIT` and the next, or the end, begins with a word, after white
/// space or none, and this word writes a number.
pub open spec fn limit_in(query: Seq<char>) -> Option<usize> {
    match first_from(query, "LIMIT"@, 0) {
        None => None,
        Some(at) => {
            let start = at + 5;
            let end = match first_from(query, "LIMIT"@, start) {
                Some(next) => next,
                None => query.len() as int,
            };
            let word = after_spaces(query, start, end);
            let stop = after_word(query, word, end);
            parsed_usize(query.subrange(word, stop))
        },
    }
}

/// The guess at the number of rows of `query`.
pub open spec fn estimated_size(query: Seq<char>) -> usize {
    if limit_in(query) is Some {
        limit_in(query)->Some_0
    } else if occurs_in("SELECT *"@, query) || occurs_in("SELECT COUNT(*)"@, query) {
        1000
    } else if occurs_in("SELECT"@, query) {
        100
    } else {
        1
    }
}

/// A number drawn at random below `bound`, by `rand::thread_rng` and
/// `Rng::gen_range`, which samples the range from zero up to `bound`, `bound`
/// left out, and needs it not to be empty. Which number is a matter of
/// chance; it is below `bound`. (`thread_rng` gives up where the system has
/// no random numbers to seed it with.)
#[verifier::external_body]
fn random_below(bound: u32) -> (draw: u32)
    requires
        bound > 0,
    ensures
        draw < bound,
{
    rand::thread_rng().gen_range(0..bound)
}

/// Failure rates are held as failures in a million operations.
pub const RATE_SCALE: u32 = 1_000_000;

/// What the stand-in knows of one connection that it has handed out.
#[derive(Debug, Clone, Copy)]
pub struct MockConnectionState {
    pub id: DatabaseId,
    pub created_at: Timestamp,
    pub active: bool,
    pub query_count: u64,
}

/// A stand-in for a database provider.
#[derive(Debug)]
pub struct MockDatabaseProvider {
    connection_string: String,
    connections: Vec<MockConnectionState>,
    query_latency: Duration,
    /// Failures in a million operations; at most a million.
    failure_rate: u32,
    max_connections: usize,
}

/// What a [`MockDatabaseProvider`] holds, but for the identifiers and dates of
/// the connections it has handed out.
pub struct ProviderView {
    pub connection_string: Seq<char>,
    /// For each connection handed out, whether it is active.
    pub connections: Seq<bool>,
    pub query_latency: Duration,
    pub failure_rate: u32,
    pub max_connections: usize,
}

/// The error of a draw that fell under the failure rate.
pub open spec fn simulated_failure() -> MockDatabaseErrorView {
    MockDatabaseErrorView::ConnectionFailed("Simulated random connection failure"@)
}

/// How many of the first `upto` connections are active.
pub open spec fn active_among(connections: Seq<bool>, upto: nat) -> nat
    decreases upto,
{
    if upto == 0 || upto > connections.len() {
        0
    } else {
        active_among(connections, (upto - 1) as nat) + if connections[upto - 1] {
            1nat
        } else {
            0nat
        }
    }
}

impl ProviderView {
    /// Whether an operation fails for which `draw` was drawn: the rate is
    /// above zero and the draw is below it.
    pub open spec fn fails_on(self, draw: u32) -> bool {
        self.failure_rate > 0 && draw < self.failure_rate
    }

    /// What is wrong with the connection string, if anything: it is empty, or
    /// it holds no `://`.
    pub open spec fn connection_string_fault(self) -> Option<MockDatabaseErrorView> {
        if self.connection_string.len() == 0 {
            Some(
                MockDatabaseErrorView::InvalidConnectionString(
                    "Connection string cannot be empty"@,
                ),
            )
        } else if !occurs_in("://"@, self.connection_string) {
            Some(
                MockDatabaseErrorView::InvalidConnectionString(
                    "Invalid connection string format: "@ + self.connection_string,
                ),
            )
        } else {
            None
        }
    }

    /// How many of the connections handed out are active.
    pub open spec fn active_count(self) -> nat {
        active_among(self.connections, self.connections.len())
    }

    /// What the provider's health is: healthy while nothing is active,
    /// degraded with a warning while some of its connections are, and
    /// degraded with an error when as many are active as it hands out.
    pub open spec fn health(self) -> HealthStatusView {
        if self.active_count() == 0 {
            HealthStatusView::Healthy
        } else if self.active_count() < self.max_connections {
            HealthStatusView::Degraded {
                reason: "High connection usage: "@ + decimal_digits(self.active_count()) + "/"@
                    + decimal_digits(self.max_connections as nat),
                severity: Severity::Warning,
            }
        } else {
            HealthStatusView::Degraded {
                reason: "Maximum connection limit reached"@,
                severity: Severity::Error,
            }
        }
    }

    /// Why no connection can be made with `draw` drawn, if none can: chance
    /// decides against it, the connection string is faulty, or as many
    /// connections were handed out as the provider hands out.
    pub open spec fn connect_fault(self, draw: u32) -> Option<MockDatabaseErrorView> {
        if self.fails_on(draw) {
            Some(simulated_failure())
        } else if self.connection_string_fault() is Some {
            self.connection_string_fault()
        } else if self.connections.len() >= self.max_connections {
            Some(
                MockDatabaseErrorView::ResourceLimitExhausted {
                    resource: "connections"@,
                    used: self.connections.len() as usize,
                    limit: self.max_connections,
                },
            )
        } else {
            None
        }
    }
}

impl View for MockDatabaseProvider {
    type V = ProviderView;

    closed spec fn view(&self) -> ProviderView {
        ProviderView {
            connection_string: self.connection_string@,
            connections: Seq::new(
                self.connections@.len(),
                |i: int| self.connections@[i].active,
            ),
            query_latency: self.query_latency,
            failure_rate: self.failure_rate,
            max_connections: self.max_connections,
        }
    }
}

/// What a batch of operations came to.
#[derive(Debug)]
pub struct BatchResult {
    pub total_operations: usize,
    pub successful_operations: usize,
    pub failed_operations: usize,
    pub duration: Duration,
    /// One message for each operation that failed, in order.
    pub errors: Vec<String>,
}

/// How many of the first `upto` draws make an operation fail at the rate
/// `rate`.
pub open spec fn failures_among(draws: Seq<u32>, rate: u32, upto: nat) -> nat
    decreases upto,
{
    if upto == 0 || upto > draws.len() {
        0
    } else {
        failures_among(draws, rate, (upto - 1) as nat) + if rate > 0 && draws[upto - 1] < rate {
            1nat
        } else {
            0nat
        }
    }
}

/// The positions, in order, of those of the first `upto` operations that fail
/// at the rate `rate`.
pub open spec fn failed_indices(draws: Seq<u32>, rate: u32, upto: nat) -> Seq<nat>
    decreases upto,
{
    if upto == 0 || upto > draws.len() {
        Seq::empty()
    } else if rate > 0 && draws[upto - 1] < rate {
        failed_indices(draws, rate, (upto - 1) as nat).push((upto - 1) as nat)
    } else {
        failed_indices(draws, rate, (upto - 1) as nat)
    }
}

/// The message about the failure of the operation at `index`.
pub open spec fn batch_failure_message(index: nat) -> Seq<char> {
    "Operation "@ + decimal_digits(index)
        + " failed: Connection failed: Simulated random connection failure"@
}

/// Whether `result` is the tally of a batch for whose operations `draws` were
/// drawn, one for each, at the rate `rate`: every operation is counted as
/// failed or as succeeded, by its draw, and each failure has left its
/// message, in the order of the operations.
pub open spec fn tallies(result: BatchResult, draws: Seq<u32>, rate: u32) -> bool {
    &&& result.total_operations == draws.len()
    &&& result.successful_operations + result.failed_operations == result.total_operations
    &&& result.failed_operations == failures_among(draws, rate, draws.len())
    &&& result.errors@.len() == result.failed_operations
    &&& forall|k: int|
        0 <= k < result.errors@.len() ==> (#[trigger] result.errors@[k])@ == batch_failure_message(
            failed_indices(draws, rate, draws.len())[k],
        )
}

/// Whether `result` is the tally of a batch of `total` operations at the
/// rate `rate`, for some numbers below the scale drawn for them.
pub open spec fn tallies_a_batch(result: BatchResult, total: usize, rate: u32) -> bool {
    exists|draws: Seq<u32>|
        {
            &&& draws.len() == total
            &&& forall|i: int| 0 <= i < draws.len() ==> draws[i] < RATE_SCALE
            &&& #[trigger] tallies(result, draws, rate)
        }
}

/// The positions of the operations that fail are as many as the failures
/// counted, each is the position of an operation whose draw makes it fail,
/// and they stand in ascending order.
pub proof fn lemma_failed_indices(draws: Seq<u32>, rate: u32, upto: nat)
    requires
        upto <= draws.len(),
    ensures
        failed_indices(draws, rate, upto).len() == failures_among(draws, rate, upto),
        failures_among(draws, rate, upto) <= upto,
        forall|k: int|
            0 <= k < failed_indices(draws, rate, upto).len() ==> {
                let at = #[trigger] failed_indices(draws, rate, upto)[k];
                at < upto && rate > 0 && draws[at as int] < rate
            },
        forall|j: int, k: int|
            0 <= j < k < failed_indices(draws, rate, upto).len() ==> failed_indices(
                draws,
                rate,
                upto,
            )[j] < failed_indices(draws, rate, upto)[k],
    decreases upto,
{
    if upto > 0 {
        lemma_failed_indices(draws, rate, (upto - 1) as nat);
    }
}

/// Where every draw is below the scale, every operation fails at the full
/// rate.
pub proof fn lemma_all_fail_at_full_rate(draws: Seq<u32>, upto: nat)
    requires
        upto <= draws.len(),
        forall|i: int| 0 <= i < upto ==> draws[i] < RATE_SCALE,
    ensures
        failures_among(draws, RATE_SCALE, upto) == upto,
    decreases upto,
{
    if upto > 0 {
        lemma_all_fail_at_full_rate(draws, (upto - 1) as nat);
    }
}

impl MockDatabaseProvider {
    /// The rate is a share of a million.
    pub closed spec fn wf(&self) -> bool {
        self.failure_rate <= RATE_SCALE
    }

    /// A provider for `connection_string` that answers after ten
    /// milliseconds, never fails and hands out at most ten connections.
    pub fn new(connection_string: &str) -> (provider: MockDatabaseProvider)
        ensures
            provider.wf(),
            provider@ == (ProviderView {
                connection_string: connection_string@,
                connections: Seq::empty(),
                query_latency: Duration { nanos: 10_000_000 },
                failure_rate: 0,
                max_connections: 10,
            }),
    {
        let provider = MockDatabaseProvider {
            connection_string: connection_string.to_owned(),
            connections: Vec::new(),
            query_latency: Duration::from_millis(10),
            failure_rate: 0,
            max_connections: 10,
        };
        assert(provider@.connections =~= Seq::empty());
        provider
    }

    /// The same provider, answering after `latency`.
    pub fn with_latency(self, latency: Duration) -> (provider: MockDatabaseProvider)
        ensures
            provider.wf() == self.wf(),
            provider@ == (ProviderView { query_latency: latency, ..self@ }),
    {
        let mut provider = self;
        provider.query_latency = latency;
        provider
    }

    /// The same provider, failing `rate` operations in a million; a rate
    /// above a million counts as a million.
    pub fn with_failure_rate(self, rate: u32) -> (provider: MockDatabaseProvider)
        ensures
            provider.wf(),
            provider@ == (ProviderView {
                failure_rate: if rate > RATE_SCALE {
                    RATE_SCALE
                } else {
                    rate
                },
                ..self@
            }),
    {
        let mut provider = self;
        provider.failure_rate = if rate > RATE_SCALE {
            RATE_SCALE
        } else {
            rate
        };
        provider
    }

    /// The same provider, handing out at most `max` connections.
    pub fn with_max_connections(self, max: usize) -> (provider: MockDatabaseProvider)
        ensures
            provider.wf() == self.wf(),
            provider@ == (ProviderView { max_connections: max, ..self@ }),
    {
        let mut provider = self;
        provider.max_connections = max;
        provider
    }

    /// Whether an operation fails for which `draw` was drawn.
    pub fn failure_on(&self, draw: u32) -> (outcome: Result<(), MockDatabaseError>)
        ensures
            outcome is Err <==> self@.fails_on(draw),
            outcome matches Err(e) ==> e@ == simulated_failure(),
    {
        if self.failure_rate > 0 && draw < self.failure_rate {
            Err(
                MockDatabaseError::ConnectionFailed(
                    "Simulated random connection failure".to_owned(),
                ),
            )
        } else {
            Ok(())
        }
    }

    /// Lets chance decide whether an operation fails: a number below a
    /// million is drawn and judged as [`MockDatabaseProvider::failure_on`]
    /// does. A provider whose rate is zero never fails, one whose rate is a
    /// million always does.
    pub fn simulate_random_failure(&self) -> (outcome: Result<(), MockDatabaseError>)
        requires
            self.wf(),
        ensures
            self@.failure_rate == 0 ==> outcome is Ok,
            self@.failure_rate == RATE_SCALE ==> outcome is Err,
            outcome matches Err(e) ==> e@ == simulated_failure(),
    {
        self.failure_on(random_below(RATE_SCALE))
    }

    /// Checks the connection string: it must not be empty and must hold
    /// `://`.
    pub fn validate_connection_string(&self) -> (outcome: Result<(), MockDatabaseError>)
        ensures
            match outcome {
                Ok(()) => self@.connection_string_fault() is None,
                Err(e) => self@.connection_string_fault() == Some(e@),
            },
    {
        if self.connection_string.as_str().is_empty() {
            return Err(
                MockDatabaseError::InvalidConnectionString(
                    "Connection string cannot be empty".to_owned(),
                ),
            );
        }
        if !contains(&chars_of(self.connection_string.as_str()), "://") {
            let mut message = String::from_str("Invalid connection string format: ");
            message.append(self.connection_string.as_str());
            return Err(MockDatabaseError::InvalidConnectionString(message));
        }
        Ok(())
    }

    /// How many of the connections handed out are active.
    fn count_active(&self) -> (count: usize)
        ensures
            count == self@.active_count(),
    {
        let mut count: usize = 0;
        let mut i: usize = 0;
        while i < self.connections.len()
            invariant
                i <= self.connections.len(),
                count == active_among(self@.connections, i as nat),
                count <= i,
                self@.connections.len() == self.connections@.len(),
                forall|j: int|
                    0 <= j < self.connections@.len() ==> self@.connections[j]
                        == self.connections@[j].active,
            decreases self.connections.len() - i,
        {
            if self.connections[i].active {
                count = count + 1;
            }
            i = i + 1;
        }
        count
    }

    /// The provider's health by the connections it has handed out: see
    /// [`ProviderView::health`].
    pub fn health_status(&self) -> (status: HealthStatus)
        ensures
            status@ == self@.health(),
    {
        let active_connections = self.count_active();
        if active_connections == 0 {
            HealthStatus::Healthy
        } else if active_connections < self.max_connections {
            let active_text = decimal(active_connections as u128);
            let max_text = decimal(self.max_connections as u128);
            let mut reason = String::from_str("High connection usage: ");
            reason.append(active_text.as_str());
            reason.append("/");
            reason.append(max_text.as_str());
            HealthStatus::Degraded { reason, severity: Severity::Warning }
        } else {
            HealthStatus::Degraded {
                reason: "Maximum connection limit reached".to_owned(),
                severity: Severity::Error,
            }
        }
    }

    /// The provider's health, timed: [`MockDatabaseProvider::health_status`],
    /// unless finding it took more than a tenth of a second.
    pub fn health_check(&self) -> (outcome: Result<HealthStatus, MockDatabaseError>)
        ensures
            outcome matches Ok(status) ==> status@ == self@.health(),
            outcome matches Err(e) ==> is_violation(
                e@,
                "health_check"@,
                Duration { nanos: 50_000_000 },
            ),
    {
        let tracker = PerformanceTracker::new("health_check", Duration::from_millis(50));
        let status = self.health_status();
        match tracker.check_contract() {
            Ok(()) => Ok(status),
            Err(e) => Err(e),
        }
    }

    /// Makes a connection, with `draw` drawn for it: see
    /// [`ProviderView::connect_fault`] for when none is made. A connection
    /// that is made is healthy, has run no query, and is noted by the
    /// provider as active.
    pub fn connect_with(&mut self, draw: u32) -> (outcome: Result<
        MockDatabaseConnection,
        MockDatabaseError,
    >)
        ensures
            final(self).wf() == old(self).wf(),
            match outcome {
                Ok(connection) => {
                    &&& old(self)@.connect_fault(draw) is None
                    &&& connection.healthy
                    &&& connection.query_count == 0
                    &&& final(self)@ == (ProviderView {
                        connections: old(self)@.connections.push(true),
                        ..old(self)@
                    })
                },
                Err(e) => old(self)@.connect_fault(draw) == Some(e@) && final(self)@ == old(
                    self,
                )@,
            },
    {
        match self.failure_on(draw) {
            Ok(()) => {},
            Err(e) => {
                return Err(e);
            },
        }
        match self.validate_connection_string() {
            Ok(()) => {},
            Err(e) => {
                return Err(e);
            },
        }
        if self.connections.len() >= self.max_connections {
            return Err(
                MockDatabaseError::ResourceLimitExhausted {
                    resource: "connections".to_owned(),
                    used: self.connections.len(),
                    limit: self.max_connections,
                },
            );
        }
        let connection = MockDatabaseConnection::new(DatabaseId::new());
        let ghost before = self@;
        self.connections.push(
            MockConnectionState {
                id: connection.id,
                created_at: connection.created_at,
                active: true,
                query_count: 0,
            },
        );
        proof {
            assert(self@.connections =~= before.connections.push(true));
        }
        Ok(connection)
    }

    /// Makes a connection as [`MockDatabaseProvider::connect_with`] does, with
    /// a number below a million drawn for it, and timed.
    ///
    /// Where the draw, the connection string or the limit stands against it,
    /// no connection is made, the provider stays as it is, and the error is
    /// that of [`ProviderView::connect_fault`] for the draw. Otherwise the
    /// connection is made and the provider notes it as active; the call then
    /// still fails, with the tracker's report, if it took more than two
    /// tenths of a second. So a provider that never fails by chance reports
    /// a faulty connection string or a reached limit every time, and one
    /// that always fails by chance makes no connection.
    pub fn connect(&mut self) -> (outcome: Result<MockDatabaseConnection, MockDatabaseError>)
        requires
            old(self).wf(),
        ensures
            final(self).wf(),
            exists|draw: u32|
                draw < RATE_SCALE && match #[trigger] old(self)@.connect_fault(draw) {
                    Some(fault) => outcome matches Err(e) && e@ == fault && final(self)@ == old(
                        self,
                    )@,
                    None => {
                        &&& final(self)@ == (ProviderView {
                            connections: old(self)@.connections.push(true),
                            ..old(self)@
                        })
                        &&& match outcome {
                            Ok(connection) => connection.healthy && connection.query_count == 0,
                            Err(e) => is_violation(
                                e@,
                                "connect"@,
                                Duration { nanos: 100_000_000 },
                            ),
                        }
                    },
                },
    {
        let tracker = PerformanceTracker::new("connect", Duration::from_millis(100));
        let draw = random_below(RATE_SCALE);
        let connection = match self.connect_with(draw) {
            Ok(connection) => connection,
            Err(e) => {
                proof {
                    assert(old(self)@.connect_fault(draw) == Some(e@));
                }
                return Err(e);
            },
        };
        proof {
            assert(old(self)@.connect_fault(draw) is None);
        }
        match tracker.check_contract() {
            Ok(()) => Ok(connection),
            Err(e) => Err(e),
        }
    }

    /// The number that follows the first `LIMIT` of `query`: see
    /// [`limit_in`].
    fn limit_of(query: &Vec<char>) -> (limit: Option<usize>)
        ensures
            limit == limit_in(query@),
    {
        let keyword = chars_of("LIMIT");
        proof {
            reveal_strlit("LIMIT");
            assert(keyword@.len() == 5);
        }
        let start = match find_from(query, &keyword, 0) {
            Some(at) => at + 5,
            None => {
                return None;
            },
        };
        let end = match find_from(query, &keyword, start) {
            Some(next) => next,
            None => query.len(),
        };
        let word = skip_spaces(query, start, end);
        let stop = skip_word(query, word, end);
        parse_usize(query, word, stop)
    }

    /// A guess at how many rows `query` returns: the number after its first
    /// `LIMIT`, where one stands there; else a thousand for a query that
    /// selects everything or counts, a hundred for another `SELECT`, and one
    /// for anything else.
    pub fn estimate_result_size(&self, query: &str) -> (size: usize)
        ensures
            size == estimated_size(query@),
    {
        let text = chars_of(query);
        match Self::limit_of(&text) {
            Some(rows) => {
                return rows;
            },
            None => {},
        }
        if contains(&text, "SELECT *") || contains(&text, "SELECT COUNT(*)") {
            1000
        } else if contains(&text, "SELECT") {
            100
        } else {
            1
        }
    }

    /// The `index`-th made-up record: a text that names the index, marked as
    /// code of a hundred bytes from the `mock_generator`, pending, of normal
    /// priority, without further fields.
    pub fn generate_mock_record(&self, index: usize) -> (outcome: Result<
        DatabaseRecord,
        MockDatabaseError,
    >)
        ensures
            outcome matches Ok(record) && {
                &&& record.content matches Content::Text(text) && text@
                    == "Mock record content "@ + decimal_digits(index as nat)
                &&& record.metadata.source@ == "mock_generator"@
                &&& record.metadata.content_type == ContentType::Code
                &&& record.metadata.size_bytes == 100
                &&& record.metadata.processing_state is Pending
                &&& record.metadata.priority == Priority::Normal
                &&& record.metadata.custom_fields@ == Map::<String, Value>::empty()
            },
    {
        let number = decimal(index as u128);
        let mut text = String::from_str("Mock record content ");
        text.append(number.as_str());
        Ok(
            DatabaseRecord {
                id: RecordId(Uuid::new_v4()),
                content: Content::Text(text),
                metadata: RecordMetadata {
                    source: "mock_generator".to_owned(),
                    content_type: ContentType::Code,
                    size_bytes: 100,
                    processing_state: ProcessingState::Pending,
                    priority: Priority::Normal,
                    custom_fields: HashMap::new(),
                },
                created_at: utc_now(),
                updated_at: utc_now(),
            },
        )
    }

    /// Runs a batch of operations for which `draws` were drawn, one for each
    /// operation, and which took `duration` in all. Every operation either
    /// succeeds or fails, so the two counts add up to the total; each failure
    /// leaves a message that names the operation.
    pub fn execute_batch_with(&self, draws: &Vec<u32>, duration: Duration) -> (result: BatchResult)
        ensures
            tallies(result, draws@, self@.failure_rate),
            result.duration == duration,
    {
        let mut successful_operations: usize = 0;
        let mut failed_operations: usize = 0;
        let mut errors: Vec<String> = Vec::new();
        let mut index: usize = 0;
        while index < draws.len()
            invariant
                index <= draws.len(),
                successful_operations + failed_operations == index,
                failed_operations == failures_among(draws@, self@.failure_rate, index as nat),
                errors@.len() == failed_operations,
                failed_indices(draws@, self@.failure_rate, index as nat).len() == failed_operations,
                forall|k: int|
                    0 <= k < errors@.len() ==> (#[trigger] errors@[k])@ == batch_failure_message(
                        failed_indices(draws@, self@.failure_rate, index as nat)[k],
                    ),
            decreases draws.len() - index,
        {
            match self.failure_on(draws[index]) {
                Err(_) => {
                    failed_operations = failed_operations + 1;
                    let number = decimal(index as u128);
                    let mut message = String::from_str("Operation ");
                    message.append(number.as_str());
                    message.append(
                        " failed: Connection failed: Simulated random connection failure",
                    );
                    errors.push(message);
                },
                Ok(()) => {
                    successful_operations = successful_operations + 1;
                },
            }
            index = index + 1;
        }
        BatchResult {
            total_operations: draws.len(),
            successful_operations,
            failed_operations,
            duration,
            errors,
        }
    }

    /// Runs a batch of `total_operations` operations: for each a number below
    /// a million is drawn, and the batch is tallied as
    /// [`MockDatabaseProvider::execute_batch_with`] tallies it. So, whatever
    /// is drawn, the operations that succeeded and those that failed add up
    /// to the total, and each failure has left the message that names its
    /// operation; at the rate zero none fails, and at the rate of a million
    /// all do. The batch is timed, and fails as a whole if it took more than
    /// two seconds.
    pub fn execute_batch(&self, total_operations: usize) -> (outcome: Result<
        BatchResult,
        MockDatabaseError,
    >)
        requires
            self.wf(),
        ensures
            outcome matches Ok(result) ==> {
                &&& result.total_operations == total_operations
                &&& tallies_a_batch(result, total_operations, self@.failure_rate)
                &&& self@.failure_rate == 0 ==> result.failed_operations == 0
                    && result.successful_operations == total_operations
                &&& self@.failure_rate == RATE_SCALE ==> result.failed_operations
                    == total_operations && result.successful_operations == 0
            },
            outcome matches Err(e) ==> is_violation(
                e@,
                "execute_batch"@,
                Duration { nanos: 1_000_000_000 },
            ),
    {
        let tracker = PerformanceTracker::new("execute_batch", Duration::from_secs(1));
        let started = clock_now();
        let mut draws: Vec<u32> = Vec::new();
        let mut index: usize = 0;
        while index < total_operations
            invariant
                index <= total_operations,
                draws@.len() == index,
                forall|i: int| 0 <= i < draws@.len() ==> draws@[i] < RATE_SCALE,
            decreases total_operations - index,
        {
            draws.push(random_below(RATE_SCALE));
            index = index + 1;
        }
        let result = self.execute_batch_with(&draws, clock_elapsed(&started));
        proof {
            let drawn = draws@;
            assert(drawn.len() == total_operations);
            assert(forall|i: int| 0 <= i < drawn.len() ==> drawn[i] < RATE_SCALE);
            assert(tallies(result, drawn, self@.failure_rate));
            assert(tallies_a_batch(result, total_operations, self@.failure_rate));
            if self@.failure_rate == 0 {
                lemma_no_failures_at_rate_zero(draws@, draws@.len() as nat);
            }
            if self@.failure_rate == RATE_SCALE {
                lemma_all_fail_at_full_rate(draws@, draws@.len() as nat);
            }
        }
        match tracker.check_contract() {
            Ok(()) => Ok(result),
            Err(e) => Err(e),
        }
    }
}

/// At the rate zero nothing fails.
pub proof fn lemma_no_failures_at_rate_zero(draws: Seq<u32>, upto: nat)
    ensures
        failures_among(draws, 0, upto) == 0,
    decreases upto,
{
    if upto > 0 && upto <= draws.len() {
        lemma_no_failures_at_rate_zero(draws, (upto - 1) as nat);
    }
}

/// Times one operation against the time that it is allowed.
#[derive(Debug)]
pub struct PerformanceTracker {
    start_time: Instant,
    operation: &'static str,
    expected_max: Duration,
}

impl Clone for PerformanceTracker {
    fn clone(&self) -> (copy: PerformanceTracker)
        ensures
            copy == *self,
    {
        PerformanceTracker {
            start_time: self.start_time,
            operation: self.operation,
            expected_max: self.expected_max,
        }
    }
}

/// The message about an operation that took `elapsed` where `allowed` was
/// expected, both in whole milliseconds.
pub open spec fn violation_message(operation: Seq<char>, elapsed: Duration, allowed: Duration) -> Seq<
    char,
> {
    "Performance contract violation: "@ + operation + " took "@ + decimal_digits(
        (elapsed.nanos / NANOS_PER_MILLI) as nat,
    ) + "ms (expected < "@ + decimal_digits((allowed.nanos / NANOS_PER_MILLI) as nat) + "ms)"@
}

/// Whether `error` is what a tracker of `operation`, which is allowed
/// `allowance`, reports of some time that breaks the contract: a time of more
/// than twice the allowance, named in the message.
pub open spec fn is_violation(
    error: MockDatabaseErrorView,
    operation: Seq<char>,
    allowance: Duration,
) -> bool {
    exists|elapsed: Duration|
        elapsed.nanos > 2 * allowance.nanos && error == (MockDatabaseErrorView::MockError {
            message: #[trigger] violation_message(operation, elapsed, allowance),
        })
}

impl PerformanceTracker {
    /// The name of the operation that is timed.
    pub closed spec fn operation_name(&self) -> Seq<char> {
        self.operation@
    }

    /// The time that the operation is allowed.
    pub closed spec fn allowance(&self) -> Duration {
        self.expected_max
    }

    /// Whether an operation that took `elapsed` breaks the contract: it took
    /// more than twice the time it is allowed.
    pub open spec fn violated_by(&self, elapsed: Duration) -> bool {
        elapsed.nanos > 2 * self.allowance().nanos
    }

    /// Starts timing `operation`, which is allowed `expected_max`.
    pub fn new(operation: &'static str, expected_max: Duration) -> (tracker: PerformanceTracker)
        ensures
            tracker.operation_name() == operation@,
            tracker.allowance() == expected_max,
    {
        PerformanceTracker { start_time: clock_now(), operation, expected_max }
    }

    /// Judges an operation that took `elapsed`: it fails, with a message that
    /// names the operation and both times, exactly if the operation took more
    /// than twice the time it is allowed.
    pub fn check_elapsed(&self, elapsed: Duration) -> (kept: Result<(), MockDatabaseError>)
        ensures
            kept is Err <==> self.violated_by(elapsed),
            kept matches Err(e) ==> e@ == (MockDatabaseErrorView::MockError {
                message: violation_message(self.operation_name(), elapsed, self.allowance()),
            }),
    {
        let taken = elapsed.as_nanos();
        let allowed = self.expected_max.as_nanos();
        if taken > allowed && taken - allowed > allowed {
            let took = decimal(elapsed.as_millis());
            let expected = decimal(self.expected_max.as_millis());
            let mut message = String::from_str("Performance contract violation: ");
            message.append(self.operation);
            message.append(" took ");
            message.append(took.as_str());
            message.append("ms (expected < ");
            message.append(expected.as_str());
            message.append("ms)");
            Err(MockDatabaseError::MockError { message })
        } else {
            Ok(())
        }
    }

    /// Judges the operation by the time that the clock shows to have passed
    /// since the tracker was made, as [`PerformanceTracker::check_elapsed`]
    /// does. So it fails only with the report of a time of more than twice
    /// the allowance, and never where no time is that long.
    pub fn check_contract(&self) -> (kept: Result<(), MockDatabaseError>)
        ensures
            kept matches Err(e) ==> is_violation(e@, self.operation_name(), self.allowance()),
    {
        let elapsed = clock_elapsed(&self.start_time);
        let kept = self.check_elapsed(elapsed);
        proof {
            if kept is Err {
                assert(self.violated_by(elapsed));
                assert(kept->Err_0@ == (MockDatabaseErrorView::MockError {
                    message: violation_message(self.operation_name(), elapsed, self.allowance()),
                }));
            }
        }
        kept
    }
}

/// Makes stand-ins that are set up alike.
#[derive(Debug, Clone, Copy, PartialEq, Eq, Structural)]
pub struct MockTestFactory {
    pub latency: Duration,
    /// Failures in a million operations; at most a million.
    pub failure_rate: u32,
    pub max_connections: usize,
}

impl MockTestFactory {
    /// A factory of providers that answer after ten milliseconds, never fail
    /// and hand out at most ten connections.
    pub fn new() -> (factory: MockTestFactory)
        ensures
            factory == (MockTestFactory {
                latency: Duration { nanos: 10_000_000 },
                failure_rate: 0,
                max_connections: 10,
            }),
    {
        MockTestFactory { latency: Duration::from_millis(10), failure_rate: 0, max_connections: 10 }
    }

    /// A provider for `test://localhost` with the factory's latency, rate and
    /// limit; a rate above a million counts as a million.
    pub fn database_provider(&self) -> (provider: MockDatabaseProvider)
        ensures
            provider.wf(),
            provider@ == (ProviderView {
                connection_string: "test://localhost"@,
                connections: Seq::empty(),
                query_latency: self.latency,
                failure_rate: if self.failure_rate > RATE_SCALE {
                    RATE_SCALE
                } else {
                    self.failure_rate
                },
                max_connections: self.max_connections,
            }),
    {
        MockDatabaseProvider::new("test://localhost").with_latency(
            self.latency,
        ).with_failure_rate(self.failure_rate).with_max_connections(self.max_connections)
    }

    /// The same factory with the latency `latency`.
    pub fn with_latency(self, latency: Duration) -> (factory: MockTestFactory)
        ensures
            factory == (MockTestFactory { latency, ..self }),
    {
        MockTestFactory { latency, ..self }
    }

    /// The same factory with `rate` failures in a million operations; a rate
    /// above a million counts as a million.
    pub fn with_failure_rate(self, rate: u32) -> (factory: MockTestFactory)
        ensures
            factory == (MockTestFactory {
                failure_rate: if rate > RATE_SCALE {
                    RATE_SCALE
                } else {
                    rate
                },
                ..self
            }),
    {
        MockTestFactory {
            failure_rate: if rate > RATE_SCALE {
                RATE_SCALE
            } else {
                rate
            },
            ..self
        }
    }

    /// The same factory with the limit `max`.
    pub fn with_max_connections(self, max: usize) -> (factory: MockTestFactory)
        ensures
            factory == (MockTestFactory { max_connections: max, ..self }),
    {
        MockTestFactory { max_connections: max, ..self }
    }

    /// Five made-up records, numbered from one: each a text that names its
    /// number, marked as code of fifty bytes from the `mock_generator`,
    /// pending, of normal priority, with the current time as a further
    /// field.
    pub fn generate_mock_records(&self) -> (records: Vec<DatabaseRecord>)
        ensures
            records@.len() == 5,
            forall|i: int|
                0 <= i < 5 ==> {
                    &&& (#[trigger] records@[i]).content matches Content::Text(text) && text@
                        == "Mock content for record "@ + decimal_digits((i + 1) as nat)
                    &&& records@[i].metadata.source@ == "mock_generator"@
                    &&& records@[i].metadata.content_type == ContentType::Code
                    &&& records@[i].metadata.size_bytes == 50
                    &&& records@[i].metadata.processing_state is Pending
                    &&& records@[i].metadata.priority == Priority::Normal
                },
    {
        let mut records: Vec<DatabaseRecord> = Vec::new();
        let mut i: usize = 0;
        while i < 5
            invariant
                i <= 5,
                records@.len() == i,
                forall|j: int|
                    0 <= j < i ==> {
                        &&& (#[trigger] records@[j]).content matches Content::Text(text) && text@
                            == "Mock content for record "@ + decimal_digits((j + 1) as nat)
                        &&& records@[j].metadata.source@ == "mock_generator"@
                        &&& records@[j].metadata.content_type == ContentType::Code
                        &&& records@[j].metadata.size_bytes == 50
                        &&& records@[j].metadata.processing_state is Pending
                        &&& records@[j].metadata.priority == Priority::Normal
                    },
            decreases 5 - i,
        {
            let number = decimal((i + 1) as u128);
            let mut text = String::from_str("Mock content for record ");
            text.append(number.as_str());
            let mut custom_fields: HashMap<String, Value> = HashMap::new();
            let stamp = rfc3339_now();
            custom_fields.insert("timestamp".to_owned(), json_string(stamp.as_str()));
            records.push(
                DatabaseRecord {
                    id: RecordId(Uuid::new_v4()),
                    content: Content::Text(text),
                    metadata: RecordMetadata {
                        source: "mock_generator".to_owned(),
                        content_type: ContentType::Code,
                        size_bytes: 50,
                        processing_state: ProcessingState::Pending,
                        priority: Priority::Normal,
                        custom_fields,
                    },
                    created_at: utc_now(),
                    updated_at: utc_now(),
                },
            );
            i = i + 1;
        }
        records
    }
}

impl Default for MockTestFactory {
    fn default() -> (factory: MockTestFactory)
        ensures
            factory == (MockTestFactory {
                latency: Duration { nanos: 10_000_000 },
                failure_rate: 0,
                max_connections: 10,
            }),
    {
        MockTestFactory::new()
    }
}

} // verus!

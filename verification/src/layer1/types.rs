//! Identifiers, configuration records and small result types.

use vstd::prelude::*;
use std::collections::HashMap;
use uuid::Uuid;
use crate::ids::{is_hyphenated, uuid_text};

verus! {

/// The identifier of a database connection.
#[derive(Debug, Clone, Copy, PartialEq, Eq, Hash)]
pub struct DatabaseId(pub Uuid);

impl DatabaseId {
    /// A fresh random identifier.
    pub fn new() -> DatabaseId {
        DatabaseId(Uuid::new_v4())
    }

    /// The identifier in its printed form.
    pub fn to_string(&self) -> (text: String)
        ensures
            is_hyphenated(text@),
    {
        uuid_text(&self.0)
    }
}

impl Default for DatabaseId {
    /// A fresh random identifier.
    fn default() -> DatabaseId {
        DatabaseId::new()
    }
}

/// The identifier of a record.
#[derive(Debug, Clone, Copy, PartialEq, Eq, Hash)]
pub struct RecordId(pub Uuid);

impl RecordId {
    /// A fresh random identifier.
    pub fn new() -> RecordId {
        RecordId(Uuid::new_v4())
    }
}

impl Default for RecordId {
    /// A fresh random identifier.
    fn default() -> RecordId {
        RecordId::new()
    }
}

/// How work is cut into batches.
#[derive(Debug, Clone, Copy, PartialEq, Eq, Structural)]
pub struct BatchConfig {
    pub max_batch_size: usize,
    pub timeout_ms: u64,
    pub enable_parallel_processing: bool,
    pub max_concurrent_batches: usize,
}

impl Default for BatchConfig {
    fn default() -> (config: BatchConfig)
        ensures
            config == (BatchConfig {
                max_batch_size: 32,
                timeout_ms: 5000,
                enable_parallel_processing: true,
                max_concurrent_batches: 4,
            }),
    {
        BatchConfig {
            max_batch_size: 32,
            timeout_ms: 5000,
            enable_parallel_processing: true,
            max_concurrent_batches: 4,
        }
    }
}

/// How sessions of an inference engine are kept.
#[derive(Debug, Clone, Copy, PartialEq, Eq, Structural)]
pub struct SessionConfig {
    pub session_timeout_ms: u64,
    pub max_sessions_per_model: usize,
    pub enable_session_caching: bool,
    pub session_warmup: bool,
    pub memory_limit_mb: usize,
}

impl Default for SessionConfig {
    /// Five minutes, ten sessions, caching and warm-up on, two gigabytes.
    fn default() -> (config: SessionConfig)
        ensures
            config == (SessionConfig {
                session_timeout_ms: 300_000,
                max_sessions_per_model: 10,
                enable_session_caching: true,
                session_warmup: true,
                memory_limit_mb: 2048,
            }),
    {
        SessionConfig {
            session_timeout_ms: 300_000,
            max_sessions_per_model: 10,
            enable_session_caching: true,
            session_warmup: true,
            memory_limit_mb: 2048,
        }
    }
}

/// How failed operations are tried again.
#[derive(Debug, Clone, Copy, PartialEq, Eq, Structural)]
pub struct RetryConfig {
    pub max_retries: u32,
    pub base_delay_ms: u64,
    pub max_delay_ms: u64,
    pub exponential_backoff: bool,
    pub jitter: bool,
}

impl Default for RetryConfig {
    fn default() -> (config: RetryConfig)
        ensures
            config == (RetryConfig {
                max_retries: 3,
                base_delay_ms: 100,
                max_delay_ms: 10_000,
                exponential_backoff: true,
                jitter: true,
            }),
    {
        RetryConfig {
            max_retries: 3,
            base_delay_ms: 100,
            max_delay_ms: 10_000,
            exponential_backoff: true,
            jitter: true,
        }
    }
}

/// `base` doubled `times` times.
pub open spec fn doubled(base: nat, times: nat) -> nat
    decreases times,
{
    if times == 0 {
        base
    } else {
        2 * doubled(base, (times - 1) as nat)
    }
}

/// Doubling never makes less.
pub proof fn lemma_doubled_grows(base: nat, times: nat)
    ensures
        doubled(base, times) >= base,
    decreases times,
{
    if times > 0 {
        lemma_doubled_grows(base, (times - 1) as nat);
    }
}

impl RetryConfig {
    /// How long to wait, in milliseconds, before new try number `attempt`,
    /// counted from zero: the base delay, doubled once for each earlier try
    /// where the back-off is exponential, and never more than the greatest
    /// delay. Jitter, where it is asked for, is the caller's to take off this.
    pub open spec fn delay(self, attempt: u32) -> nat {
        let grown = if self.exponential_backoff {
            doubled(self.base_delay_ms as nat, attempt as nat)
        } else {
            self.base_delay_ms as nat
        };
        if grown > self.max_delay_ms {
            self.max_delay_ms as nat
        } else {
            grown
        }
    }

    /// Whether new try number `attempt`, counted from zero, may be made.
    pub fn allows(&self, attempt: u32) -> (allowed: bool)
        ensures
            allowed == (attempt < self.max_retries),
    {
        attempt < self.max_retries
    }

    /// How long to wait, in milliseconds, before new try number `attempt`:
    /// see [`RetryConfig::delay`].
    pub fn backoff_delay(&self, attempt: u32) -> (delay_ms: u64)
        ensures
            delay_ms == self.delay(attempt),
    {
        if !self.exponential_backoff || self.base_delay_ms >= self.max_delay_ms {
            proof {
                lemma_doubled_grows(self.base_delay_ms as nat, attempt as nat);
            }
            return if self.base_delay_ms > self.max_delay_ms {
                self.max_delay_ms
            } else {
                self.base_delay_ms
            };
        }
        let mut delay: u64 = self.base_delay_ms;
        let mut done: u32 = 0;
        while done < attempt
            invariant
                done <= attempt,
                self.exponential_backoff,
                delay == doubled(self.base_delay_ms as nat, done as nat),
                delay < self.max_delay_ms,
            decreases attempt - done,
        {
            if delay >= self.max_delay_ms - delay {
                proof {
                    assert(doubled(self.base_delay_ms as nat, (done + 1) as nat) == 2 * delay);
                    lemma_doubled_reaches(
                        self.base_delay_ms as nat,
                        (done + 1) as nat,
                        attempt as nat,
                    );
                }
                return self.max_delay_ms;
            }
            delay = delay + delay;
            done = done + 1;
        }
        delay
    }
}

/// What doubling has reached, it keeps.
pub proof fn lemma_doubled_reaches(base: nat, sooner: nat, later: nat)
    requires
        sooner <= later,
    ensures
        doubled(base, later) >= doubled(base, sooner),
    decreases later,
{
    if sooner < later {
        lemma_doubled_reaches(base, sooner, (later - 1) as nat);
    }
}

/// How a database is reached.
#[derive(Debug)]
pub struct DatabaseConfig {
    pub connection_string: String,
    pub pool_size: usize,
    pub timeout_ms: u64,
    pub retry_config: RetryConfig,
    pub enable_ssl: bool,
}

impl Default for DatabaseConfig {
    /// An in-memory database behind a pool of ten, thirty seconds of timeout,
    /// the default retries, no SSL.
    fn default() -> (config: DatabaseConfig)
        ensures
            config.connection_string@ == "sqlite://:memory:"@,
            config.pool_size == 10,
            config.timeout_ms == 30_000,
            config.retry_config == (RetryConfig {
                max_retries: 3,
                base_delay_ms: 100,
                max_delay_ms: 10_000,
                exponential_backoff: true,
                jitter: true,
            }),
            !config.enable_ssl,
    {
        DatabaseConfig {
            connection_string: "sqlite://:memory:".to_owned(),
            pool_size: 10,
            timeout_ms: 30_000,
            retry_config: RetryConfig::default(),
            enable_ssl: false,
        }
    }
}

impl Clone for DatabaseConfig {
    fn clone(&self) -> (copy: DatabaseConfig)
        ensures
            copy == *self,
    {
        DatabaseConfig {
            connection_string: self.connection_string.clone(),
            pool_size: self.pool_size,
            timeout_ms: self.timeout_ms,
            retry_config: self.retry_config,
            enable_ssl: self.enable_ssl,
        }
    }
}

/// What is watched, and how often.
#[derive(Debug, Clone, Copy, PartialEq, Eq, Structural)]
pub struct MonitoringConfig {
    pub enable_metrics: bool,
    pub metrics_export_interval_ms: u64,
    pub enable_health_checks: bool,
    pub health_check_interval_ms: u64,
    pub enable_tracing: bool,
}

impl Default for MonitoringConfig {
    /// Metrics every minute, health checks every thirty seconds, no tracing.
    fn default() -> (config: MonitoringConfig)
        ensures
            config == (MonitoringConfig {
                enable_metrics: true,
                metrics_export_interval_ms: 60_000,
                enable_health_checks: true,
                health_check_interval_ms: 30_000,
                enable_tracing: false,
            }),
    {
        MonitoringConfig {
            enable_metrics: true,
            metrics_export_interval_ms: 60_000,
            enable_health_checks: true,
            health_check_interval_ms: 30_000,
            enable_tracing: false,
        }
    }
}

/// The stages that a pipeline goes through.
#[derive(Debug, Clone, Copy, PartialEq, Eq, Hash, Structural)]
pub enum PipelineStage {
    Initialization,
    DataExtraction,
    Chunking,
    Inference,
    Aggregation,
    Storage,
    Completion,
}

impl PipelineStage {
    /// The stage's name as a sequence of characters.
    pub open spec fn name(self) -> Seq<char> {
        match self {
            PipelineStage::Initialization => "initialization"@,
            PipelineStage::DataExtraction => "data_extraction"@,
            PipelineStage::Chunking => "chunking"@,
            PipelineStage::Inference => "inference"@,
            PipelineStage::Aggregation => "aggregation"@,
            PipelineStage::Storage => "storage"@,
            PipelineStage::Completion => "completion"@,
        }
    }

    /// The stage's name in lower case, with `_` between words.
    pub fn as_str(&self) -> (name: &'static str)
        ensures
            name@ == self.name(),
    {
        match self {
            PipelineStage::Initialization => "initialization",
            PipelineStage::DataExtraction => "data_extraction",
            PipelineStage::Chunking => "chunking",
            PipelineStage::Inference => "inference",
            PipelineStage::Aggregation => "aggregation",
            PipelineStage::Storage => "storage",
            PipelineStage::Completion => "completion",
        }
    }
}

/// What an operation came to, and how long it took.
#[derive(Debug)]
pub struct OperationResult<T> {
    /// What the operation produced; nothing where it failed.
    pub data: Option<T>,
    pub duration_ms: u64,
    pub success: bool,
    pub error_message: Option<String>,
    pub metadata: HashMap<String, String>,
}

impl<T> OperationResult<T> {
    /// The result of an operation that produced `data` in `duration_ms`
    /// milliseconds.
    pub fn success(data: T, duration_ms: u64) -> (result: OperationResult<T>)
        ensures
            result.data == Some(data),
            result.duration_ms == duration_ms,
            result.success,
            result.error_message is None,
            result.metadata@ == Map::<String, String>::empty(),
    {
        OperationResult {
            data: Some(data),
            duration_ms,
            success: true,
            error_message: None,
            metadata: HashMap::new(),
        }
    }

    /// The result of an operation that failed after `duration_ms`
    /// milliseconds, for the reason in `error_message`.
    pub fn failure(error_message: String, duration_ms: u64) -> (result: OperationResult<T>)
        ensures
            result.data is None,
            result.duration_ms == duration_ms,
            !result.success,
            result.error_message == Some(error_message),
            result.metadata@ == Map::<String, String>::empty(),
    {
        OperationResult {
            data: None,
            duration_ms,
            success: false,
            error_message: Some(error_message),
            metadata: HashMap::new(),
        }
    }
}

} // verus!

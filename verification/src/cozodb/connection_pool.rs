//! The pool: a bounded stock of connections that are lent out and taken back.

use vstd::prelude::*;
use crate::cozodb::connection::{
    health_check_timeout, ConnectionConfig, ConnectionView, CozoConnection, ProbeOutcome,
};
use crate::cozodb::error::{CozoError, CozoErrorView};
use crate::cozodb::record::{PoolInfo, Ratio};
use crate::time::Duration;

verus! {

/// How long a caller waits, in milliseconds, between a first attempt to
/// acquire a connection that found nothing and the second, last one.
pub const ACQUIRE_RETRY_WAIT_MILLIS: u64 = 10;

/// What a pool is made with.
#[derive(Debug)]
pub struct ConnectionPoolConfig {
    /// Where the store is.
    pub url: String,
    /// The greatest number of connections the pool may own.
    pub max_connections: usize,
    /// How long a health check, or making a connection, may take.
    pub connection_timeout: Duration,
    /// After how long an idle connection may be checked again.
    pub idle_timeout: Duration,
    /// How often the pool's health is sampled.
    pub health_check_interval: Duration,
    /// How often a caller should try a failed operation again.
    pub max_retry_attempts: usize,
    /// How long a caller should wait before the first new try.
    pub retry_base_delay: Duration,
}

impl Default for ConnectionPoolConfig {
    /// Ten connections to `cozodb://./cozo.db`; five seconds for a health
    /// check, thirty idle, a sample every ten; three new tries a tenth of a
    /// second apart.
    fn default() -> (config: ConnectionPoolConfig)
        ensures
            config.url@ == "cozodb://./cozo.db"@,
            config.max_connections == 10,
            config.connection_timeout.nanos == 5_000_000_000u128,
            config.idle_timeout.nanos == 30_000_000_000u128,
            config.health_check_interval.nanos == 10_000_000_000u128,
            config.max_retry_attempts == 3,
            config.retry_base_delay.nanos == 100_000_000u128,
    {
        ConnectionPoolConfig {
            url: "cozodb://./cozo.db".to_owned(),
            max_connections: 10,
            connection_timeout: Duration::from_secs(5),
            idle_timeout: Duration::from_secs(30),
            health_check_interval: Duration::from_secs(10),
            max_retry_attempts: 3,
            retry_base_delay: Duration::from_millis(100),
        }
    }
}

impl Clone for ConnectionPoolConfig {
    /// A copy with the same address and limits.
    fn clone(&self) -> (copy: ConnectionPoolConfig)
        ensures
            copy == *self,
    {
        ConnectionPoolConfig {
            url: self.url.clone(),
            max_connections: self.max_connections,
            connection_timeout: self.connection_timeout,
            idle_timeout: self.idle_timeout,
            health_check_interval: self.health_check_interval,
            max_retry_attempts: self.max_retry_attempts,
            retry_base_delay: self.retry_base_delay,
        }
    }
}

/// A snapshot of the pool's counters.
#[derive(Clone, Copy, Debug, PartialEq, Eq, Structural)]
pub struct ConnectionPoolMetrics {
    pub active_connections: usize,
    pub idle_connections: usize,
    pub total_acquired: u64,
    pub total_released: u64,
    /// Active connections over the pool's size.
    pub utilization_rate: Ratio,
    pub is_healthy: bool,
}

/// The limits of a connection that the pool makes: the pool's own timeout
/// for health checks, and otherwise those of [`ConnectionConfig::default`].
pub open spec fn pooled_connection_config(connection_timeout: Duration) -> ConnectionConfig {
    ConnectionConfig {
        connection_timeout,
        max_query_time: Duration { nanos: 30_000_000_000 },
        retry_attempts: 3,
        retry_delay: Duration { nanos: 100_000_000 },
    }
}

/// The first position of `id` in `ids`, if it occurs.
pub open spec fn first_position(ids: Seq<Seq<char>>, id: Seq<char>) -> Option<int>
    decreases ids.len(),
{
    if ids.len() == 0 {
        None
    } else if ids[0] == id {
        Some(0)
    } else {
        match first_position(ids.drop_first(), id) {
            Some(at) => Some(at + 1),
            None => None,
        }
    }
}

/// `ids` with the first occurrence of `gone` replaced by `fresh`; `ids` itself
/// where `gone` does not occur.
pub open spec fn replace_first(ids: Seq<Seq<char>>, gone: Seq<char>, fresh: Seq<char>) -> Seq<
    Seq<char>,
> {
    match first_position(ids, gone) {
        Some(at) => ids.update(at, fresh),
        None => ids,
    }
}

/// How many of the first `limit` probes, from position `from` on, are there
/// and came in time, up to the first that is missing or late.
pub open spec fn admitted_from(
    probes: Seq<ProbeOutcome>,
    timeout: Duration,
    limit: nat,
    from: nat,
) -> nat
    decreases limit - from,
{
    if from >= limit || from >= probes.len() || probes[from as int].timed_out(timeout) {
        from
    } else {
        admitted_from(probes, timeout, limit, from + 1)
    }
}

/// How many connections a pool of at most `limit` can make with `probes` as
/// the outcomes of their first health checks, in order: it stops at the first
/// probe that is missing or late.
pub open spec fn admitted(probes: Seq<ProbeOutcome>, timeout: Duration, limit: nat) -> nat {
    admitted_from(probes, timeout, limit, 0)
}

/// The error of an attempt to acquire from a pool that is marked unhealthy.
pub open spec fn pool_unhealthy() -> CozoErrorView {
    CozoErrorView::ConnectionFailed { message: "Connection pool is unhealthy"@ }
}

/// The error of an attempt to acquire that found nothing to lend.
pub open spec fn connections_exhausted(used: usize, limit: usize) -> CozoErrorView {
    CozoErrorView::ResourceLimitExhausted { resource: "connections"@, used, limit }
}

/// The error of a release to a pool that has nothing out on loan.
pub open spec fn nothing_on_loan() -> CozoErrorView {
    CozoErrorView::Internal { message: "No connection is on loan"@ }
}

/// What one attempt to acquire a connection comes to.
pub enum Attempt {
    /// This connection was lent.
    Lent(ConnectionView),
    /// Nothing could be lent; a later attempt may find something.
    Nothing,
    /// The attempt failed.
    Failed(CozoErrorView),
}

/// The outcome that the result of one attempt stands for.
pub open spec fn attempt_of(attempted: Result<Option<CozoConnection>, CozoError>) -> Attempt {
    match attempted {
        Ok(Some(connection)) => Attempt::Lent(connection@),
        Ok(None) => Attempt::Nothing,
        Err(e) => Attempt::Failed(e@),
    }
}

/// What the result of a release shows.
pub open spec fn release_of(released: Result<(), CozoError>) -> Result<(), CozoErrorView> {
    match released {
        Ok(()) => Ok(()),
        Err(e) => Err(e@),
    }
}

/// What a pool holds: its limits, the identifiers of the connections it
/// owns, the connections it can lend, and its counters.
pub struct PoolView {
    pub url: Seq<char>,
    pub max_connections: usize,
    pub connection_timeout: Duration,
    /// The identifiers of the connections that the pool owns, in the order in
    /// which their places were first filled.
    pub owned: Seq<Seq<char>>,
    /// The connections ready to be lent; the last one is lent first.
    pub available: Seq<ConnectionView>,
    /// Connections out on loan.
    pub active: usize,
    /// Connections owned and not on loan, whether ready to be lent or lost
    /// without a replacement.
    pub idle: usize,
    pub total_acquired: u64,
    pub total_released: u64,
    pub healthy: bool,
}

impl PoolView {
    /// The bookkeeping is sound: every owned connection is either on loan or
    /// idle, the pool owns no more than it may, it can lend no more than is
    /// idle, and every connection it can lend can be checked once more.
    pub open spec fn wf(self) -> bool {
        &&& self.active + self.idle == self.owned.len()
        &&& self.owned.len() <= self.max_connections
        &&& self.available.len() <= self.idle
        &&& forall|i: int|
            0 <= i < self.available.len() ==> (#[trigger] self.available[i]).error_count
                < usize::MAX
    }

    /// The limits of the connections that this pool makes.
    pub open spec fn connection_config(self) -> ConnectionConfig {
        pooled_connection_config(self.connection_timeout)
    }

    /// Whether `made` is a connection as this pool makes it, first checked
    /// with the outcome `probe`.
    pub open spec fn makes(self, made: ConnectionView, probe: ProbeOutcome) -> bool {
        made == ConnectionView::established(
            made.id,
            self.url,
            self.connection_config(),
        ).after_health_check(probe)
    }

    /// The pool after it has lent its last available connection.
    pub open spec fn lend(self) -> PoolView {
        PoolView {
            available: self.available.drop_last(),
            active: (self.active + 1) as usize,
            idle: (self.idle - 1) as usize,
            total_acquired: (self.total_acquired + 1) as u64,
            ..self
        }
    }

    /// The pool after its last available connection was thrown away.
    pub open spec fn discard(self) -> PoolView {
        PoolView { available: self.available.drop_last(), ..self }
    }

    /// The pool after a connection has come back from its loan, before
    /// anything is done with it.
    pub open spec fn take_back(self) -> PoolView {
        PoolView {
            active: (self.active - 1) as usize,
            idle: (self.idle + 1) as usize,
            total_released: (self.total_released + 1) as u64,
            ..self
        }
    }

    /// The pool after `connection` was put among the available ones.
    pub open spec fn shelve(self, connection: ConnectionView) -> PoolView {
        PoolView { available: self.available.push(connection), ..self }
    }

    /// The pool after `fresh` took the place of the connection `gone`: it is
    /// available, and its identifier stands where that of `gone` first stood
    /// among the owned ones, if it stood there.
    pub open spec fn restock(self, gone: Seq<char>, fresh: ConnectionView) -> PoolView {
        PoolView {
            available: self.available.push(fresh),
            owned: replace_first(self.owned, gone, fresh.id),
            ..self
        }
    }

    /// What one attempt to acquire comes to, where `probe` is the outcome of
    /// checking the connection that would be lent and `replacement` that of
    /// first checking a connection made to replace it.
    ///
    /// A pool with nothing available has nothing to lend, whatever its mark.
    /// A pool that has something but is marked unhealthy refuses to lend it.
    /// Otherwise the last available connection is checked: where it passes,
    /// it is lent; where it does not, it is thrown away and replaced, and
    /// nothing is lent in this attempt; where the replacement cannot be made
    /// in time, the attempt fails.
    pub open spec fn attempt_outcome(self, probe: ProbeOutcome, replacement: ProbeOutcome) -> Attempt {
        if self.available.len() == 0 {
            Attempt::Nothing
        } else if !self.healthy {
            Attempt::Failed(pool_unhealthy())
        } else if probe.passed(self.available.last().config.connection_timeout) {
            Attempt::Lent(self.available.last().after_health_check(probe))
        } else if replacement.timed_out(self.connection_timeout) {
            Attempt::Failed(health_check_timeout())
        } else {
            Attempt::Nothing
        }
    }

    /// Whether `after` is a pool that the attempt of
    /// [`PoolView::attempt_outcome`] can leave behind. It is determined but
    /// for the identifier of a replacement.
    pub open spec fn attempt_leaves(
        self,
        probe: ProbeOutcome,
        replacement: ProbeOutcome,
        after: PoolView,
    ) -> bool {
        if !self.healthy || self.available.len() == 0 {
            after == self
        } else if probe.passed(self.available.last().config.connection_timeout) {
            after == self.lend()
        } else if replacement.timed_out(self.connection_timeout) {
            after == self.discard()
        } else {
            exists|fresh: ConnectionView|
                #![auto]
                self.makes(fresh, replacement) && after == self.discard().restock(
                    self.available.last().id,
                    fresh,
                )
        }
    }

    /// What the release of `returned` comes to, where `probe` is the outcome
    /// of checking it and `replacement` that of first checking a connection
    /// made to replace it.
    ///
    /// A pool with nothing out on loan takes nothing back. Otherwise the
    /// release succeeds, unless the connection fails its check and its
    /// replacement cannot be made in time.
    pub open spec fn release_outcome(
        self,
        returned: ConnectionView,
        probe: ProbeOutcome,
        replacement: ProbeOutcome,
    ) -> Result<(), CozoErrorView> {
        if self.active == 0 {
            Err(nothing_on_loan())
        } else if !probe.passed(returned.config.connection_timeout) && replacement.timed_out(
            self.connection_timeout,
        ) {
            Err(health_check_timeout())
        } else {
            Ok(())
        }
    }

    /// Whether `after` is a pool that the release of
    /// [`PoolView::release_outcome`] can leave behind. Whatever becomes of
    /// the connection, it is no longer on loan: where it passes its check it
    /// is available again, where it fails a replacement is, and where no
    /// replacement can be made its place stays empty.
    pub open spec fn release_leaves(
        self,
        returned: ConnectionView,
        probe: ProbeOutcome,
        replacement: ProbeOutcome,
        after: PoolView,
    ) -> bool {
        if self.active == 0 {
            after == self
        } else if probe.passed(returned.config.connection_timeout) {
            after == self.take_back().shelve(returned.after_health_check(probe))
        } else if replacement.timed_out(self.connection_timeout) {
            after == self.take_back()
        } else {
            exists|fresh: ConnectionView|
                #![auto]
                self.makes(fresh, replacement) && after == self.take_back().restock(
                    returned.id,
                    fresh,
                )
        }
    }

    /// Whether an attempt to acquire, with `probe` as the outcome of checking
    /// the connection that would be lent, has a connection made to replace
    /// it: the pool has something to lend, is marked healthy, and the
    /// connection does not pass.
    pub open spec fn attempt_replaces(self, probe: ProbeOutcome) -> bool {
        self.available.len() > 0 && self.healthy && !probe.passed(
            self.available.last().config.connection_timeout,
        )
    }

    /// Whether the release of `returned`, with `probe` as the outcome of
    /// checking it, has a connection made to replace it: something is on
    /// loan, and the connection does not pass.
    pub open spec fn release_replaces(self, returned: ConnectionView, probe: ProbeOutcome) -> bool {
        self.active > 0 && !probe.passed(returned.config.connection_timeout)
    }

    /// What a sample of the pool's health finds: the pool owns something and
    /// at least half of it is available.
    pub open spec fn sampled_health(self) -> bool {
        self.owned.len() > 0 && 2 * self.available.len() >= self.owned.len()
    }

    /// The snapshot of the counters.
    pub open spec fn metrics(self) -> ConnectionPoolMetrics {
        ConnectionPoolMetrics {
            active_connections: self.active,
            idle_connections: self.idle,
            total_acquired: self.total_acquired,
            total_released: self.total_released,
            utilization_rate: if self.max_connections == 0 {
                Ratio { numerator: 0, denominator: 1 }
            } else {
                Ratio { numerator: self.active, denominator: self.max_connections }
            },
            is_healthy: self.healthy,
        }
    }
}

/// A bounded stock of connections to one store.
#[derive(Debug)]
pub struct CozoConnectionPool {
    config: ConnectionPoolConfig,
    /// The connections ready to be lent.
    available_connections: Vec<CozoConnection>,
    /// The identifiers of all connections that the pool owns.
    all_connections: Vec<String>,
    pool_info: PoolInfo,
    health_status: bool,
}

impl View for CozoConnectionPool {
    type V = PoolView;

    closed spec fn view(&self) -> PoolView {
        PoolView {
            url: self.config.url@,
            max_connections: self.config.max_connections,
            connection_timeout: self.config.connection_timeout,
            owned: Seq::new(self.all_connections@.len(), |i: int| self.all_connections@[i]@),
            available: Seq::new(
                self.available_connections@.len(),
                |i: int| self.available_connections@[i]@,
            ),
            active: self.pool_info.active_connections,
            idle: self.pool_info.idle_connections,
            total_acquired: self.pool_info.total_acquired,
            total_released: self.pool_info.total_released,
            healthy: self.health_status,
        }
    }
}

impl CozoConnectionPool {
    /// The pool's record of its size agrees with its configuration.
    pub closed spec fn sized(&self) -> bool {
        self.pool_info.pool_size == self.config.max_connections
    }

    /// The pool's bookkeeping is sound.
    pub open spec fn wf(&self) -> bool {
        self@.wf() && self.sized()
    }

    /// The configuration that the pool was made with.
    pub closed spec fn configuration(&self) -> ConnectionPoolConfig {
        self.config
    }

    /// The pool's bookkeeping record.
    pub closed spec fn info(&self) -> PoolInfo {
        self.pool_info
    }

    /// The limits of a connection that this pool makes.
    fn connection_config(&self) -> (config: ConnectionConfig)
        ensures
            config == self@.connection_config(),
    {
        ConnectionConfig {
            connection_timeout: self.config.connection_timeout,
            max_query_time: Duration::from_secs(30),
            retry_attempts: 3,
            retry_delay: Duration::from_millis(100),
        }
    }

    /// Fills an empty pool: makes connections one after the other, the i-th
    /// first checked with the outcome `probes[i]`, until the pool is full or
    /// a probe is missing or late. Each connection made is owned and idle.
    fn initialize_pool(&mut self, probes: &Vec<ProbeOutcome>) -> (filled: Result<(), CozoError>)
        requires
            old(self).sized(),
            old(self)@.owned.len() == 0,
            old(self)@.available.len() == 0,
            old(self)@.active == 0,
            old(self)@.idle == 0,
        ensures
            final(self).wf(),
            final(self).configuration() == old(self).configuration(),
            final(self).info().pool_id == old(self).info().pool_id,
            final(self).info().created_at == old(self).info().created_at,
            final(self)@.url == old(self)@.url,
            final(self)@.max_connections == old(self)@.max_connections,
            final(self)@.connection_timeout == old(self)@.connection_timeout,
            final(self)@.healthy == old(self)@.healthy,
            final(self)@.total_acquired == old(self)@.total_acquired,
            final(self)@.total_released == old(self)@.total_released,
            final(self)@.active == 0,
            final(self)@.idle == final(self)@.owned.len(),
            final(self)@.available.len() == final(self)@.owned.len(),
            final(self)@.owned.len() == admitted(
                probes@,
                old(self)@.connection_timeout,
                old(self)@.max_connections as nat,
            ),
            forall|i: int|
                0 <= i < final(self)@.owned.len() ==> {
                    &&& final(self)@.makes(#[trigger] final(self)@.available[i], probes@[i])
                    &&& final(self)@.owned[i] == final(self)@.available[i].id
                },
            filled is Ok <==> final(self)@.owned.len() == old(self)@.max_connections,
            filled matches Err(e) ==> e@ == health_check_timeout(),
    {
        let connection_config = self.connection_config();
        let mut i: usize = 0;
        while i < self.config.max_connections
            invariant
                self.sized(),
                self.configuration() == old(self).configuration(),
                self.info().pool_id == old(self).info().pool_id,
                self.info().created_at == old(self).info().created_at,
                self@.url == old(self)@.url,
                self@.max_connections == old(self)@.max_connections,
                self@.connection_timeout == old(self)@.connection_timeout,
                self@.healthy == old(self)@.healthy,
                self@.total_acquired == old(self)@.total_acquired,
                self@.total_released == old(self)@.total_released,
                connection_config == self@.connection_config(),
                i <= self@.max_connections,
                self@.active == 0,
                self@.idle == i,
                self@.owned.len() == i,
                self@.available.len() == i,
                i <= probes@.len(),
                admitted(probes@, self@.connection_timeout, self@.max_connections as nat)
                    == admitted_from(
                    probes@,
                    self@.connection_timeout,
                    self@.max_connections as nat,
                    i as nat,
                ),
                forall|j: int|
                    0 <= j < i ==> {
                        &&& self@.makes(#[trigger] self@.available[j], probes@[j])
                        &&& self@.owned[j] == self@.available[j].id
                    },
                forall|j: int|
                    0 <= j < i ==> (#[trigger] self@.available[j]).error_count < usize::MAX,
            decreases self.config.max_connections - i,
        {
            if i >= probes.len() {
                return Err(CozoError::connection_failed("Health check timeout"));
            }
            let probe = probes[i];
            let ghost before = self@;
            match CozoConnection::new(self.config.url.as_str(), connection_config, probe) {
                Ok(connection) => {
                    self.all_connections.push(connection.connection_id().clone());
                    self.available_connections.push(connection);
                    self.pool_info.idle_connections = self.pool_info.idle_connections + 1;
                    proof {
                        assert(self@.available =~= before.available.push(connection@));
                        assert(self@.owned =~= before.owned.push(connection@.id));
                    }
                },
                Err(e) => {
                    return Err(e);
                },
            }
            i = i + 1;
        }
        Ok(())
    }

    /// Where `gone` first stands among the owned identifiers, if it does.
    fn owned_position(&self, gone: &String) -> (found: Option<usize>)
        ensures
            match found {
                Some(at) => first_position(self@.owned, gone@) == Some(at as int) && at
                    < self@.owned.len(),
                None => first_position(self@.owned, gone@) == None::<int>,
            },
    {
        let ghost owned = self@.owned;
        let mut at: usize = 0;
        proof {
            assert(owned.subrange(0, owned.len() as int) =~= owned);
        }
        while at < self.all_connections.len()
            invariant
                owned == self@.owned,
                at <= self.all_connections.len(),
                self.all_connections.len() == owned.len(),
                forall|j: int| 0 <= j < owned.len() ==> owned[j] == self.all_connections@[j]@,
                match first_position(owned.subrange(at as int, owned.len() as int), gone@) {
                    Some(rest) => first_position(owned, gone@) == Some(at + rest),
                    None => first_position(owned, gone@) == None::<int>,
                },
            decreases self.all_connections.len() - at,
        {
            let ghost tail = owned.subrange(at as int, owned.len() as int);
            proof {
                assert(tail.drop_first() =~= owned.subrange(at + 1, owned.len() as int));
                assert(tail[0] == owned[at as int]);
            }
            if self.all_connections[at] == *gone {
                proof {
                    assert(owned.subrange(0, owned.len() as int) =~= owned);
                }
                return Some(at);
            }
            at = at + 1;
        }
        proof {
            assert(owned.subrange(0, owned.len() as int) =~= owned);
        }
        None
    }

    /// Puts a new connection in the place of `gone`, which was found
    /// unhealthy: the new one is first checked with the outcome
    /// `replacement`, takes the place of `gone` among the owned ones where
    /// `gone` stood there, and becomes available. Where its check comes late,
    /// nothing is made and the pool stays as it is.
    fn replace_unhealthy_connection(&mut self, gone: CozoConnection, replacement: ProbeOutcome) -> (replaced:
        Result<(), CozoError>)
        requires
            old(self).wf(),
            old(self)@.available.len() < old(self)@.idle,
        ensures
            final(self).wf(),
            final(self).configuration() == old(self).configuration(),
            final(self).info() == old(self).info(),
            replaced is Err <==> replacement.timed_out(old(self)@.connection_timeout),
            match replaced {
                Ok(()) => exists|fresh: ConnectionView|
                    #![auto]
                    old(self)@.makes(fresh, replacement) && final(self)@ == old(self)@.restock(
                        gone@.id,
                        fresh,
                    ),
                Err(e) => e@ == health_check_timeout() && final(self)@ == old(self)@,
            },
    {
        let connection_config = self.connection_config();
        let fresh = match CozoConnection::new(
            self.config.url.as_str(),
            connection_config,
            replacement,
        ) {
            Ok(fresh) => fresh,
            Err(e) => {
                return Err(e);
            },
        };
        let ghost before = self@;
        match self.owned_position(gone.connection_id()) {
            Some(at) => {
                self.all_connections[at] = fresh.connection_id().clone();
                proof {
                    assert(self@.owned =~= before.owned.update(at as int, fresh@.id));
                }
            },
            None => {
                proof {
                    assert(self@.owned =~= before.owned);
                }
            },
        }
        self.available_connections.push(fresh);
        proof {
            assert(self@.available =~= before.available.push(fresh@));
            assert(self@ == before.restock(gone@.id, fresh@));
            assert(before.makes(fresh@, replacement));
        }
        Ok(())
    }

    /// Makes a pool and fills it: `max_connections` connections, the i-th
    /// first checked with the outcome `probes[i]`. A probe that is missing
    /// or late fails the whole with [`health_check_timeout`], and no pool is
    /// made; a probe that failed in time leaves its connection in the pool,
    /// marked unhealthy. A new pool is marked healthy and has lent nothing.
    pub fn new(config: ConnectionPoolConfig, probes: &Vec<ProbeOutcome>) -> (made: Result<
        CozoConnectionPool,
        CozoError,
    >)
        ensures
            made is Ok <==> admitted(probes@, config.connection_timeout, config.max_connections as nat)
                == config.max_connections,
            made matches Err(e) ==> e@ == health_check_timeout(),
            made matches Ok(pool) ==> {
                &&& pool.wf()
                &&& pool.configuration() == config
                &&& pool@.url == config.url@
                &&& pool@.max_connections == config.max_connections
                &&& pool@.connection_timeout == config.connection_timeout
                &&& pool@.healthy
                &&& pool@.active == 0
                &&& pool@.idle == config.max_connections
                &&& pool@.total_acquired == 0
                &&& pool@.total_released == 0
                &&& pool@.owned.len() == config.max_connections
                &&& pool@.available.len() == config.max_connections
                &&& forall|i: int|
                    0 <= i < config.max_connections ==> {
                        &&& pool@.makes(#[trigger] pool@.available[i], probes@[i])
                        &&& pool@.owned[i] == pool@.available[i].id
                    }
            },
    {
        let mut pool_info = PoolInfo::new(config.max_connections);
        pool_info.idle_connections = 0;
        let mut pool = CozoConnectionPool {
            config,
            available_connections: Vec::new(),
            all_connections: Vec::new(),
            pool_info,
            health_status: true,
        };
        match pool.initialize_pool(probes) {
            Ok(()) => Ok(pool),
            Err(e) => Err(e),
        }
    }

    /// One attempt to acquire a connection: see
    /// [`PoolView::attempt_outcome`] for what it comes to and
    /// [`PoolView::attempt_leaves`] for the pool it leaves. `Ok(None)` says
    /// that nothing could be lent now: the caller waits
    /// [`ACQUIRE_RETRY_WAIT_MILLIS`] and makes its last attempt with
    /// [`CozoConnectionPool::acquire_connection`].
    pub fn try_acquire_connection(&mut self, probe: ProbeOutcome, replacement: ProbeOutcome) -> (attempted:
        Result<Option<CozoConnection>, CozoError>)
        requires
            old(self).wf(),
            old(self)@.total_acquired < u64::MAX,
        ensures
            final(self).wf(),
            final(self).configuration() == old(self).configuration(),
            final(self).info().pool_id == old(self).info().pool_id,
            final(self).info().created_at == old(self).info().created_at,
            attempt_of(attempted) == old(self)@.attempt_outcome(probe, replacement),
            old(self)@.attempt_leaves(probe, replacement, final(self)@),
    {
        if self.available_connections.len() == 0 {
            return Ok(None);
        }
        if !self.health_status {
            return Err(CozoError::connection_failed("Connection pool is unhealthy"));
        }
        let ghost before = self@;
        match self.available_connections.pop() {
            None => Ok(None),
            Some(candidate) => {
                let mut candidate = candidate;
                proof {
                    assert(self@.available =~= before.available.drop_last());
                    assert(candidate@ == before.available.last());
                }
                let healthy = match candidate.is_healthy(probe) {
                    Ok(flag) => flag,
                    Err(_) => false,
                };
                if healthy {
                    self.pool_info.active_connections = self.pool_info.active_connections + 1;
                    self.pool_info.idle_connections = self.pool_info.idle_connections - 1;
                    self.pool_info.total_acquired = self.pool_info.total_acquired + 1;
                    proof {
                        assert(self@ == before.lend());
                    }
                    Ok(Some(candidate))
                } else {
                    let ghost emptied = self@;
                    let ghost gone = candidate@.id;
                    proof {
                        assert(emptied == before.discard());
                    }
                    match self.replace_unhealthy_connection(candidate, replacement) {
                        Ok(()) => {
                            proof {
                                let fresh = choose|fresh: ConnectionView|
                                    #![auto]
                                    emptied.makes(fresh, replacement) && self@ == emptied.restock(
                                        gone,
                                        fresh,
                                    );
                                assert(before.makes(fresh, replacement));
                                assert(self@ == before.discard().restock(
                                    before.available.last().id,
                                    fresh,
                                ));
                            }
                            Ok(None)
                        },
                        Err(e) => Err(e),
                    }
                }
            },
        }
    }

    /// The last attempt to acquire a connection. It goes as
    /// [`CozoConnectionPool::try_acquire_connection`] does, but where that
    /// finds nothing to lend, this fails: the pool is exhausted.
    pub fn acquire_connection(&mut self, probe: ProbeOutcome, replacement: ProbeOutcome) -> (acquired:
        Result<CozoConnection, CozoError>)
        requires
            old(self).wf(),
            old(self)@.total_acquired < u64::MAX,
        ensures
            final(self).wf(),
            final(self).configuration() == old(self).configuration(),
            final(self).info().pool_id == old(self).info().pool_id,
            final(self).info().created_at == old(self).info().created_at,
            old(self)@.attempt_leaves(probe, replacement, final(self)@),
            match old(self)@.attempt_outcome(probe, replacement) {
                Attempt::Lent(connection) => acquired matches Ok(lent) && lent@ == connection,
                Attempt::Nothing => acquired matches Err(e) && e@ == connections_exhausted(
                    final(self)@.active,
                    final(self)@.max_connections,
                ),
                Attempt::Failed(error) => acquired matches Err(e) && e@ == error,
            },
    {
        match self.try_acquire_connection(probe, replacement) {
            Ok(Some(connection)) => Ok(connection),
            Ok(None) => Err(
                CozoError::resource_limit_exhausted(
                    "connections",
                    self.pool_info.active_connections,
                    self.config.max_connections,
                ),
            ),
            Err(e) => Err(e),
        }
    }

    /// Takes `connection` back from its loan: see
    /// [`PoolView::release_outcome`] for what the release comes to and
    /// [`PoolView::release_leaves`] for the pool it leaves. `probe` is the
    /// outcome of checking the connection, `replacement` that of first
    /// checking a connection made to replace it.
    pub fn release_connection(
        &mut self,
        connection: CozoConnection,
        probe: ProbeOutcome,
        replacement: ProbeOutcome,
    ) -> (released: Result<(), CozoError>)
        requires
            old(self).wf(),
            old(self)@.total_released < u64::MAX,
            connection@.error_count < usize::MAX,
        ensures
            final(self).wf(),
            final(self).configuration() == old(self).configuration(),
            final(self).info().pool_id == old(self).info().pool_id,
            final(self).info().created_at == old(self).info().created_at,
            release_of(released) == old(self)@.release_outcome(connection@, probe, replacement),
            old(self)@.release_leaves(connection@, probe, replacement, final(self)@),
    {
        if self.pool_info.active_connections == 0 {
            return Err(CozoError::internal("No connection is on loan"));
        }
        let ghost before = self@;
        let mut connection = connection;
        self.pool_info.active_connections = self.pool_info.active_connections - 1;
        self.pool_info.idle_connections = self.pool_info.idle_connections + 1;
        self.pool_info.total_released = self.pool_info.total_released + 1;
        proof {
            assert(self@ == before.take_back());
        }
        let healthy = match connection.is_healthy(probe) {
            Ok(flag) => flag,
            Err(_) => false,
        };
        if healthy {
            self.available_connections.push(connection);
            proof {
                assert(self@.available =~= before.available.push(connection@));
                assert(self@ == before.take_back().shelve(connection@));
            }
            Ok(())
        } else {
            let ghost taken = self@;
            let ghost gone = connection@.id;
            match self.replace_unhealthy_connection(connection, replacement) {
                Ok(()) => {
                    proof {
                        let fresh = choose|fresh: ConnectionView|
                            #![auto]
                            taken.makes(fresh, replacement) && self@ == taken.restock(gone, fresh);
                        assert(before.makes(fresh, replacement));
                        assert(self@ == before.take_back().restock(gone, fresh));
                    }
                    Ok(())
                },
                Err(e) => Err(e),
            }
        }
    }

    /// Whether an attempt to acquire, with `probe` as the outcome of checking
    /// the connection that would be lent, will have a connection made to
    /// replace it. A caller that makes what a replacement needs only on
    /// demand asks this first.
    pub fn acquire_needs_replacement(&self, probe: ProbeOutcome) -> (needed: bool)
        ensures
            needed == self@.attempt_replaces(probe),
    {
        let stock = self.available_connections.len();
        if stock == 0 || !self.health_status {
            return false;
        }
        !self.available_connections[stock - 1].passes(probe)
    }

    /// Whether the release of `connection`, with `probe` as the outcome of
    /// checking it, will have a connection made to replace it.
    pub fn release_needs_replacement(&self, connection: &CozoConnection, probe: ProbeOutcome) -> (needed:
        bool)
        ensures
            needed == self@.release_replaces(connection@, probe),
    {
        self.pool_info.active_connections > 0 && !connection.passes(probe)
    }

    /// Whether the pool is marked healthy.
    pub fn is_healthy(&self) -> (healthy: bool)
        ensures
            healthy == self@.healthy,
    {
        self.health_status
    }

    /// How many connections are out on loan.
    pub fn active_connections(&self) -> (active: usize)
        ensures
            active == self@.active,
    {
        self.pool_info.active_connections
    }

    /// The greatest number of connections the pool may own.
    pub fn max_connections(&self) -> (limit: usize)
        ensures
            limit == self@.max_connections,
    {
        self.config.max_connections
    }

    /// How many connections are ready to be lent.
    pub fn available_count(&self) -> (count: usize)
        ensures
            count == self@.available.len(),
    {
        self.available_connections.len()
    }

    /// The identifiers of the connections that the pool owns, in the order
    /// of their places.
    pub fn owned_ids(&self) -> (ids: Vec<String>)
        ensures
            ids@.len() == self@.owned.len(),
            forall|i: int| 0 <= i < ids@.len() ==> (#[trigger] ids@[i])@ == self@.owned[i],
    {
        let mut ids: Vec<String> = Vec::new();
        let mut i: usize = 0;
        while i < self.all_connections.len()
            invariant
                i <= self.all_connections.len(),
                ids@.len() == i,
                forall|j: int| 0 <= j < i ==> (#[trigger] ids@[j])@ == self.all_connections@[j]@,
            decreases self.all_connections.len() - i,
        {
            ids.push(self.all_connections[i].clone());
            i = i + 1;
        }
        ids
    }

    /// A copy of the pool's bookkeeping record.
    pub fn pool_info(&self) -> (info: PoolInfo)
        ensures
            info == self.info(),
            info.active_connections == self@.active,
            info.idle_connections == self@.idle,
            info.total_acquired == self@.total_acquired,
            info.total_released == self@.total_released,
            self.sized() ==> info.pool_size == self@.max_connections,
    {
        self.pool_info.clone()
    }

    /// One sample of the pool's health: the pool is marked healthy if it owns
    /// something and at least half of what it owns is available, and
    /// unhealthy if not. Nothing else changes.
    pub fn health_monitor_cycle(&mut self)
        ensures
            final(self)@ == (PoolView { healthy: old(self)@.sampled_health(), ..old(self)@ }),
            final(self).configuration() == old(self).configuration(),
            final(self).info() == old(self).info(),
            final(self).sized() == old(self).sized(),
    {
        let available_count = self.available_connections.len();
        let total_count = self.all_connections.len();
        // Half of the total, rounded up, without leaving the range of usize.
        let needed: usize = total_count / 2 + total_count % 2;
        self.health_status = total_count > 0 && available_count >= needed;
    }

    /// Marks the pool unhealthy, as if the store had gone away. Nothing else
    /// changes, and the call never fails.
    pub fn simulate_database_failure(&mut self) -> (done: Result<(), CozoError>)
        ensures
            done is Ok,
            final(self)@ == (PoolView { healthy: false, ..old(self)@ }),
            final(self).configuration() == old(self).configuration(),
            final(self).info() == old(self).info(),
            final(self).sized() == old(self).sized(),
    {
        self.health_status = false;
        Ok(())
    }

    /// Marks the pool healthy and fills it anew, as
    /// [`CozoConnectionPool::new`] does: what the pool owned is forgotten,
    /// what was out on loan with it, and new connections are made, the i-th
    /// first checked with the outcome `probes[i]`. Where a probe is missing
    /// or late the call fails and the pool holds the connections made before
    /// it. The counts of loans and returns go on.
    pub fn simulate_database_recovery(&mut self, probes: &Vec<ProbeOutcome>) -> (done: Result<
        (),
        CozoError,
    >)
        ensures
            final(self).wf(),
            final(self).configuration() == old(self).configuration(),
            final(self).info().pool_id == old(self).info().pool_id,
            final(self).info().created_at == old(self).info().created_at,
            final(self)@.url == old(self)@.url,
            final(self)@.max_connections == old(self)@.max_connections,
            final(self)@.connection_timeout == old(self)@.connection_timeout,
            final(self)@.healthy,
            final(self)@.total_acquired == old(self)@.total_acquired,
            final(self)@.total_released == old(self)@.total_released,
            final(self)@.active == 0,
            final(self)@.idle == final(self)@.owned.len(),
            final(self)@.available.len() == final(self)@.owned.len(),
            final(self)@.owned.len() == admitted(
                probes@,
                old(self)@.connection_timeout,
                old(self)@.max_connections as nat,
            ),
            forall|i: int|
                0 <= i < final(self)@.owned.len() ==> {
                    &&& final(self)@.makes(#[trigger] final(self)@.available[i], probes@[i])
                    &&& final(self)@.owned[i] == final(self)@.available[i].id
                },
            done is Ok <==> final(self)@.owned.len() == old(self)@.max_connections,
            done matches Err(e) ==> e@ == health_check_timeout(),
    {
        self.health_status = true;
        self.available_connections.clear();
        self.all_connections.clear();
        self.pool_info.pool_size = self.config.max_connections;
        self.pool_info.active_connections = 0;
        self.pool_info.idle_connections = 0;
        self.initialize_pool(probes)
    }

    /// A snapshot of the pool's counters. It reads the pool and changes
    /// nothing.
    pub fn performance_metrics(&self) -> (metrics: ConnectionPoolMetrics)
        ensures
            metrics == self@.metrics(),
    {
        let utilization_rate = if self.config.max_connections == 0 {
            Ratio { numerator: 0, denominator: 1 }
        } else {
            Ratio {
                numerator: self.pool_info.active_connections,
                denominator: self.config.max_connections,
            }
        };
        ConnectionPoolMetrics {
            active_connections: self.pool_info.active_connections,
            idle_connections: self.pool_info.idle_connections,
            total_acquired: self.pool_info.total_acquired,
            total_released: self.pool_info.total_released,
            utilization_rate,
            is_healthy: self.is_healthy(),
        }
    }
}

} // verus!

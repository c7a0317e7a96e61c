//! What holds of every pool, whatever is done with it.

use vstd::prelude::*;
use crate::cozodb::connection::{ConnectionView, ProbeOutcome};
use crate::cozodb::connection_pool::{
    first_position, replace_first, Attempt, ConnectionPoolMetrics, CozoConnectionPool, PoolView,
};

verus! {

/// In a pool whose bookkeeping is sound, the connections on loan and the idle
/// ones together are the connections that the pool owns, and they are no more
/// than the pool may own.
pub proof fn lemma_counts_add_up(pool: PoolView)
    requires
        pool.wf(),
    ensures
        pool.active + pool.idle == pool.owned.len(),
        pool.owned.len() <= pool.max_connections,
        pool.active + pool.idle <= pool.max_connections,
{
}

/// Where an identifier is found among others, it stands there.
pub proof fn lemma_first_position_found(ids: Seq<Seq<char>>, id: Seq<char>)
    ensures
        first_position(ids, id) matches Some(at) ==> 0 <= at < ids.len() && ids[at] == id,
        replace_first(ids, id, id).len() == ids.len(),
    decreases ids.len(),
{
    if ids.len() > 0 && ids[0] != id {
        lemma_first_position_found(ids.drop_first(), id);
    }
}

/// Replacing one identifier by another changes no count.
pub proof fn lemma_replace_first_len(ids: Seq<Seq<char>>, gone: Seq<char>, fresh: Seq<char>)
    ensures
        replace_first(ids, gone, fresh).len() == ids.len(),
{
    lemma_first_position_found(ids, gone);
}

/// A pool that takes in a connection that can be checked once more, in the
/// place of one that it threw away or took back, has sound bookkeeping if it
/// has room for it.
proof fn lemma_restock_keeps_counts(pool: PoolView, gone: Seq<char>, fresh: ConnectionView)
    requires
        pool.active + pool.idle == pool.owned.len(),
        pool.owned.len() <= pool.max_connections,
        pool.available.len() < pool.idle,
        forall|i: int|
            0 <= i < pool.available.len() ==> (#[trigger] pool.available[i]).error_count
                < usize::MAX,
        fresh.error_count < usize::MAX,
    ensures
        pool.restock(gone, fresh).wf(),
        pool.restock(gone, fresh).owned.len() == pool.owned.len(),
{
    lemma_replace_first_len(pool.owned, gone, fresh.id);
    let after = pool.restock(gone, fresh);
    assert forall|i: int| 0 <= i < after.available.len() implies (#[trigger] after.available[i]).error_count
        < usize::MAX by {
        if i < pool.available.len() {
            assert(after.available[i] == pool.available[i]);
        }
    }
}

/// An attempt to acquire leaves the bookkeeping sound, whatever the probes
/// come to.
pub proof fn lemma_attempt_keeps_counts(
    before: PoolView,
    probe: ProbeOutcome,
    replacement: ProbeOutcome,
    after: PoolView,
)
    requires
        before.wf(),
        before.attempt_leaves(probe, replacement, after),
    ensures
        after.wf(),
        after.owned.len() == before.owned.len(),
        after.max_connections == before.max_connections,
{
    if before.healthy && before.available.len() > 0 && !probe.passed(
        before.available.last().config.connection_timeout,
    ) && !replacement.timed_out(before.connection_timeout) {
        let fresh = choose|fresh: ConnectionView|
            #![auto]
            before.makes(fresh, replacement) && after == before.discard().restock(
                before.available.last().id,
                fresh,
            );
        assert(fresh.error_count <= 1);
        let emptied = before.discard();
        assert forall|i: int| 0 <= i < emptied.available.len() implies (
        #[trigger] emptied.available[i]).error_count < usize::MAX by {
            assert(emptied.available[i] == before.available[i]);
        }
        lemma_restock_keeps_counts(emptied, before.available.last().id, fresh);
    } else {
        assert forall|i: int| 0 <= i < after.available.len() implies (#[trigger] after.available[i]).error_count
            < usize::MAX by {
            assert(after.available[i] == before.available[i]);
        }
    }
}

/// A release leaves the bookkeeping sound, whatever the probes come to.
pub proof fn lemma_release_keeps_counts(
    before: PoolView,
    returned: ConnectionView,
    probe: ProbeOutcome,
    replacement: ProbeOutcome,
    after: PoolView,
)
    requires
        before.wf(),
        returned.error_count < usize::MAX,
        before.release_leaves(returned, probe, replacement, after),
    ensures
        after.wf(),
        after.owned.len() == before.owned.len(),
        after.max_connections == before.max_connections,
{
    if before.active != 0 && !probe.passed(returned.config.connection_timeout)
        && !replacement.timed_out(before.connection_timeout) {
        let fresh = choose|fresh: ConnectionView|
            #![auto]
            before.makes(fresh, replacement) && after == before.take_back().restock(
                returned.id,
                fresh,
            );
        assert(fresh.error_count <= 1);
        lemma_restock_keeps_counts(before.take_back(), returned.id, fresh);
    } else if before.active != 0 && probe.passed(returned.config.connection_timeout) {
        let checked = returned.after_health_check(probe);
        assert forall|i: int| 0 <= i < after.available.len() implies (#[trigger] after.available[i]).error_count
            < usize::MAX by {
            if i < before.available.len() {
                assert(after.available[i] == before.available[i]);
            } else {
                assert(after.available[i] == checked);
            }
        }
    }
}

/// A sample of the pool's health, and a simulated failure, change the mark
/// and nothing that the bookkeeping rests on.
pub proof fn lemma_mark_keeps_counts(before: PoolView, mark: bool)
    requires
        before.wf(),
    ensures
        (PoolView { healthy: mark, ..before }).wf(),
{
}

/// Two snapshots of the counters of one pool, with nothing done to the pool
/// in between, are the same.
pub proof fn lemma_metrics_repeat(
    pool: &CozoConnectionPool,
    first: ConnectionPoolMetrics,
    second: ConnectionPoolMetrics,
)
    requires
        call_ensures(CozoConnectionPool::performance_metrics, (pool,), first),
        call_ensures(CozoConnectionPool::performance_metrics, (pool,), second),
    ensures
        first == second,
{
}

/// Whether `states` is a run of `n` loans followed by `n` returns: the pool
/// goes through `states` in order, each of the first `n` steps is an attempt
/// to acquire that lends a connection, and each of the next `n` steps is the
/// release of `returned[i]`. The probes of step `i` are `probes[i]` and
/// `replacements[i]`.
pub open spec fn loans_then_returns(
    states: Seq<PoolView>,
    n: nat,
    probes: Seq<ProbeOutcome>,
    replacements: Seq<ProbeOutcome>,
    returned: Seq<ConnectionView>,
) -> bool {
    &&& states.len() == 2 * n + 1
    &&& probes.len() == 2 * n
    &&& replacements.len() == 2 * n
    &&& returned.len() == n
    &&& forall|i: int|
        0 <= i < n ==> {
            &&& (#[trigger] states[i]).attempt_outcome(probes[i], replacements[i]) is Lent
            &&& states[i].attempt_leaves(probes[i], replacements[i], states[i + 1])
        }
    &&& forall|i: int|
        n <= i < 2 * n ==> (#[trigger] states[i]).release_leaves(
            returned[i - n],
            probes[i],
            replacements[i],
            states[i + 1],
        )
}

/// After the first `k` loans of a run, `k` more connections are on loan and
/// `k` fewer are idle.
proof fn lemma_after_loans(
    states: Seq<PoolView>,
    n: nat,
    probes: Seq<ProbeOutcome>,
    replacements: Seq<ProbeOutcome>,
    returned: Seq<ConnectionView>,
    k: nat,
)
    requires
        loans_then_returns(states, n, probes, replacements, returned),
        states[0].wf(),
        k <= n,
    ensures
        states[k as int].wf(),
        states[k as int].active == states[0].active + k,
        states[k as int].idle + k == states[0].idle,
        states[k as int].max_connections == states[0].max_connections,
    decreases k,
{
    if k > 0 {
        lemma_after_loans(states, n, probes, replacements, returned, (k - 1) as nat);
        let before = states[k - 1];
        assert(before.attempt_outcome(probes[k - 1], replacements[k - 1]) is Lent);
        assert(before.attempt_leaves(probes[k - 1], replacements[k - 1], states[k - 1 + 1]));
        lemma_attempt_keeps_counts(before, probes[k - 1], replacements[k - 1], states[k as int]);
    }
}

/// After all loans and the first `j` returns of a run, `j` of the lent
/// connections are idle again.
proof fn lemma_after_returns(
    states: Seq<PoolView>,
    n: nat,
    probes: Seq<ProbeOutcome>,
    replacements: Seq<ProbeOutcome>,
    returned: Seq<ConnectionView>,
    j: nat,
)
    requires
        loans_then_returns(states, n, probes, replacements, returned),
        states[0].wf(),
        j <= n,
    ensures
        states[(n + j) as int].active + j == states[0].active + n,
        states[(n + j) as int].idle + n == states[0].idle + j,
        states[(n + j) as int].max_connections == states[0].max_connections,
    decreases j,
{
    if j == 0 {
        lemma_after_loans(states, n, probes, replacements, returned, n);
    } else {
        lemma_after_returns(states, n, probes, replacements, returned, (j - 1) as nat);
        let at = n + j - 1;
        let before = states[at];
        assert(before.release_leaves(returned[at - n], probes[at], replacements[at], states[at + 1]));
        if !probe_passes(returned[at - n], probes[at]) && !replacements[at].timed_out(
            before.connection_timeout,
        ) {
            let fresh = choose|fresh: ConnectionView|
                #![auto]
                before.makes(fresh, replacements[at]) && states[at + 1]
                    == before.take_back().restock(returned[at - n].id, fresh);
        }
    }
}

/// Whether `probe`, as the outcome of checking `connection`, passes.
pub open spec fn probe_passes(connection: ConnectionView, probe: ProbeOutcome) -> bool {
    probe.passed(connection.config.connection_timeout)
}

/// After `n` loans and then `n` returns, as many connections are on loan and
/// as many are idle as before, whatever the checks of the returned
/// connections came to. So a pool that had lent nothing and held all it may
/// own has again lent nothing and holds all it may own.
pub proof fn lemma_loans_then_returns(
    states: Seq<PoolView>,
    n: nat,
    probes: Seq<ProbeOutcome>,
    replacements: Seq<ProbeOutcome>,
    returned: Seq<ConnectionView>,
)
    requires
        loans_then_returns(states, n, probes, replacements, returned),
        states[0].wf(),
    ensures
        states[(2 * n) as int].active == states[0].active,
        states[(2 * n) as int].idle == states[0].idle,
        states[0].active == 0 && states[0].idle == states[0].max_connections ==> states[(2
            * n) as int].active == 0 && states[(2 * n) as int].idle == states[(2 * n) as int].max_connections,
{
    lemma_after_returns(states, n, probes, replacements, returned, n);
}

} // verus!

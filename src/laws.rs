use crate::batcher::{enqueue, next_window, schedule_step, timer_step, SchedulerView};
use crate::cache::is_stale;
use crate::error::DataLoaderError;
use crate::loader::{complete_step, copy_of, load_step, DataLoader, Load};
use std::hash::Hash;
use vstd::prelude::*;

verus! {

/// The scheduler after each of `ws`, in order, starts waiting for `key`.
pub open spec fn schedule_all<K, W>(s: SchedulerView<K, W>, key: K, ws: Seq<W>) -> SchedulerView<
    K,
    W,
>
    decreases ws.len(),
{
    if ws.len() == 0 {
        s
    } else {
        schedule_step(schedule_all(s, key, ws.drop_last()), key, ws.last()).0
    }
}

/// How many of those `schedule` calls hand out a batch to fetch.
pub open spec fn fetches_during<K, W>(s: SchedulerView<K, W>, key: K, ws: Seq<W>) -> nat
    decreases ws.len(),
{
    if ws.len() == 0 {
        0
    } else {
        fetches_during(s, key, ws.drop_last()) + if schedule_step(
            schedule_all(s, key, ws.drop_last()),
            key,
            ws.last(),
        ).2 is Some {
            1nat
        } else {
            0nat
        }
    }
}

/// Loads of one key within one open window share one fetch.
///
/// While the window stays open none of the calls hands out a batch, the key
/// gets a single entry holding every waiter in arrival order, and the timer
/// of that window hands out one batch with that entry.
pub proof fn lemma_same_key_one_fetch<K, W>(s: SchedulerView<K, W>, key: K, ws: Seq<W>)
    requires
        s.wf(),
        ws.len() > 0,
        !s.queued.contains_key(key),
        s.queued.len() + 1 < s.max_batch_size,
    ensures
        fetches_during(s, key, ws) == 0,
        schedule_all(s, key, ws).open,
        schedule_all(s, key, ws).window == s.window,
        schedule_all(s, key, ws).queued == s.queued.insert(key, ws),
        timer_step(schedule_all(s, key, ws), s.window).1 == Some(s.queued.insert(key, ws)),
    decreases ws.len(),
{
    let prev = ws.drop_last();
    if ws.len() == 1 {
        assert(prev.len() == 0);
        assert(fetches_during(s, key, prev) == 0);
        assert(schedule_all(s, key, prev) == s);
        assert(seq![ws.last()] =~= ws);
        assert(enqueue(s.queued, key, ws.last()) == s.queued.insert(key, ws));
        assert(s.queued.insert(key, ws).len() == s.queued.len() + 1);
    } else {
        lemma_same_key_one_fetch(s, key, prev);
        let t = schedule_all(s, key, prev);
        assert(prev.push(ws.last()) =~= ws);
        assert(t.queued.insert(key, t.queued[key].push(ws.last())) =~= s.queued.insert(key, ws));
        assert(s.queued.insert(key, prev).len() == s.queued.len() + 1);
        assert(s.queued.insert(key, ws).len() == s.queued.len() + 1);
    }
}

/// Queueing a waiter adds at most one distinct key and keeps every entry non-empty.
proof fn lemma_enqueue<K, W>(q: Map<K, Seq<W>>, key: K, w: W)
    requires
        q.dom().finite(),
        forall|k: K| #[trigger] q.contains_key(k) ==> q[k].len() > 0,
    ensures
        enqueue(q, key, w).dom().finite(),
        enqueue(q, key, w).contains_key(key),
        enqueue(q, key, w).len() == if q.contains_key(key) {
            q.len()
        } else {
            q.len() + 1
        },
        forall|k: K| #[trigger] enqueue(q, key, w).contains_key(k) ==> enqueue(q, key, w)[k].len()
            > 0,
{
    if q.contains_key(key) {
        assert(enqueue(q, key, w).dom() =~= q.dom());
    }
}

/// No batch holds more distinct keys than the batch limit, and the scheduler
/// stays well formed through every `schedule` and every timer.
pub proof fn lemma_batches_within_limit<K, W>(s: SchedulerView<K, W>, key: K, w: W, window: u64)
    requires
        s.wf(),
    ensures
        schedule_step(s, key, w).0.wf(),
        timer_step(s, window).0.wf(),
        schedule_step(s, key, w).2 is Some ==> schedule_step(s, key, w).2->0.len()
            <= s.max_batch_size,
        timer_step(s, window).1 is Some ==> timer_step(s, window).1->0.len() < s.max_batch_size,
{
    lemma_enqueue(s.queued, key, w);
    assert(Map::<K, Seq<W>>::empty().dom() =~= Set::<K>::empty());
}

/// A key that starts waiting is fetched: it is queued in the open window, or
/// in the batch handed out at once.
pub proof fn lemma_scheduled_key_is_fetched<K, W>(s: SchedulerView<K, W>, key: K, w: W)
    requires
        s.wf(),
    ensures
        schedule_step(s, key, w).0.queued.contains_key(key) || (schedule_step(s, key, w).2 is Some
            && schedule_step(s, key, w).2->0.contains_key(key)),
{
    lemma_enqueue(s.queued, key, w);
}

/// With a batch limit of two, three distinct keys scheduled one after the
/// other on an idle scheduler make two fetches: the second call hands out the
/// first two keys, and the third key opens a window of its own.
pub proof fn lemma_limit_two_splits_three_keys<K, W>(
    s: SchedulerView<K, W>,
    k1: K,
    k2: K,
    k3: K,
    w1: W,
    w2: W,
    w3: W,
)
    requires
        s.wf(),
        s.max_batch_size == 2,
        !s.open,
        k1 != k2,
        k1 != k3,
        k2 != k3,
    ensures
        schedule_step(s, k1, w1).2 is None,
        schedule_step(s, k1, w1).1 == Some(s.window),
        schedule_step(schedule_step(s, k1, w1).0, k2, w2).2 == Some(
            map![k1 => seq![w1], k2 => seq![w2]],
        ),
        schedule_step(schedule_step(schedule_step(s, k1, w1).0, k2, w2).0, k3, w3).2 is None,
        schedule_step(schedule_step(schedule_step(s, k1, w1).0, k2, w2).0, k3, w3).1 == Some(
            next_window(s.window),
        ),
        schedule_step(schedule_step(schedule_step(s, k1, w1).0, k2, w2).0, k3, w3).0.queued
            == map![k3 => seq![w3]],
{
    assert(s.queued =~= Map::<K, Seq<W>>::empty());
    let q1 = enqueue(s.queued, k1, w1);
    assert(q1 =~= map![k1 => seq![w1]]);
    assert(q1.dom() =~= set![k1]);
    let q2 = enqueue(q1, k2, w2);
    assert(q2 =~= map![k1 => seq![w1], k2 => seq![w2]]);
    assert(q2.dom() =~= set![k1].insert(k2));
    let q3 = enqueue(Map::<K, Seq<W>>::empty(), k3, w3);
    assert(q3 =~= map![k3 => seq![w3]]);
    assert(q3.dom() =~= set![k3]);
}

/// A completed load is answered from the cache while it is fresh.
///
/// A later load of the key within the TTL gets a copy of the stored outcome
/// and leaves the scheduler alone, so nothing is fetched; a failure comes back
/// as the very same failure. Once the entry is older than the TTL, the load is
/// queued for a fresh fetch.
pub proof fn lemma_cached_until_expiry<K: Eq + Hash, V: Clone, W>(
    l0: DataLoader<K, V, W>,
    l1: DataLoader<K, V, W>,
    l2: DataLoader<K, V, W>,
    key: K,
    result: Result<V, DataLoaderError>,
    stored_at: u64,
    r1: Result<V, DataLoaderError>,
    waiter: W,
    now: u64,
    r2: Load<K, V, W>,
)
    requires
        complete_step(l0, l1, key, result, stored_at, r1),
        load_step(l1, l2, key, waiter, now, r2),
    ensures
        !is_stale(stored_at, now, l0.ttl()) ==> {
            &&& r2 is Ready
            &&& copy_of(l1.cached()[key].0, r2->Ready_0)
            &&& result is Ok ==> r2->Ready_0 is Ok
            &&& result is Err ==> r2->Ready_0 == result
            &&& l2.scheduler() == l0.scheduler()
        },
        is_stale(stored_at, now, l0.ttl()) ==> {
            &&& r2 is Pending
            &&& (l2.scheduler(), r2->Pending_0.arm_timer, crate::batcher::batch_view(
                r2->Pending_0.batch,
            )) == schedule_step(l0.scheduler(), key, waiter)
        },
{
}

/// A failure reported for a key is sticky: loading the key again while the
/// stored failure is fresh returns that same failure without a fetch.
pub proof fn lemma_failure_is_sticky<K: Eq + Hash, V: Clone, W>(
    l0: DataLoader<K, V, W>,
    l1: DataLoader<K, V, W>,
    l2: DataLoader<K, V, W>,
    key: K,
    failure: DataLoaderError,
    stored_at: u64,
    r1: Result<V, DataLoaderError>,
    waiter: W,
    now: u64,
    r2: Load<K, V, W>,
)
    requires
        complete_step(l0, l1, key, Err(failure), stored_at, r1),
        load_step(l1, l2, key, waiter, now, r2),
        !is_stale(stored_at, now, l0.ttl()),
    ensures
        r1 == Err::<V, DataLoaderError>(failure),
        r2 == Load::<K, V, W>::Ready(Err(failure)),
        l2.scheduler() == l0.scheduler(),
{
}

/// A primed key is answered from the cache while the primed entry is fresh:
/// the load gets a copy of the primed outcome and nothing is fetched.
pub proof fn lemma_primed_key_needs_no_fetch<K: Eq + Hash, V: Clone, W>(
    l0: DataLoader<K, V, W>,
    l1: DataLoader<K, V, W>,
    l2: DataLoader<K, V, W>,
    key: K,
    value: Result<V, DataLoaderError>,
    primed_at: u64,
    waiter: W,
    now: u64,
    r: Load<K, V, W>,
)
    requires
        l1.cached() == l0.cached().insert(key, (value, primed_at)),
        l1.ttl() == l0.ttl(),
        l1.scheduler() == l0.scheduler(),
        load_step(l1, l2, key, waiter, now, r),
        !is_stale(primed_at, now, l0.ttl()),
    ensures
        r is Ready,
        copy_of(value, r->Ready_0),
        l2.scheduler() == l0.scheduler(),
{
}

/// After the cache is cleared, a load of any key is queued for a fetch: it
/// waits in the open window or is in the batch handed out at once.
pub proof fn lemma_clear_forces_fetch<K: Eq + Hash, V: Clone, W>(
    l1: DataLoader<K, V, W>,
    l2: DataLoader<K, V, W>,
    key: K,
    waiter: W,
    now: u64,
    r: Load<K, V, W>,
)
    requires
        l1.wf(),
        l1.cached() == Map::<K, (Result<V, DataLoaderError>, u64)>::empty(),
        load_step(l1, l2, key, waiter, now, r),
    ensures
        r is Pending,
        l2.scheduler().queued.contains_key(key) || (r->Pending_0.batch is Some
            && r->Pending_0.batch->0@.contains_key(key)),
{
    l1.lemma_scheduler_wf();
    lemma_scheduled_key_is_fetched(l1.scheduler(), key, waiter);
}

} // verus!

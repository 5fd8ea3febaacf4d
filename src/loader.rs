use crate::batcher::{batch_view, schedule_step, timer_step, BatchStats, Batcher, Scheduled, SchedulerView};
use crate::cache::{is_hit, Cache};
use crate::error::DataLoaderError;
use crate::metrics::{size_total, MetricsSnapshot, TelemetryCollector, TelemetryView};
use std::collections::HashMap;
use std::hash::Hash;
use vstd::prelude::*;
use vstd::std_specs::hash::obeys_key_model;

verus! {

/// Relies on std's `Clone` for `Result`: the copy has the same variant, and
/// its field is a clone of the field it was made from.
pub assume_specification<T: Clone, E: Clone>[ <Result<T, E> as Clone>::clone ](
    r: &Result<T, E>,
) -> (res: Result<T, E>)
    ensures
        r is Ok ==> res is Ok && cloned::<T>(r->Ok_0, res->Ok_0),
        r is Err ==> res is Err && cloned::<E>(r->Err_0, res->Err_0),
;

/// The batch limit a new loader starts with.
pub const DEFAULT_MAX_BATCH_SIZE: usize = 100;

/// The window delay, in milliseconds, a new loader starts with.
pub const DEFAULT_DELAY_MS: u64 = 10;

/// `b` is a copy of the outcome `a`: the same failure, or a clone of the same value.
pub open spec fn copy_of<V: Clone>(a: Result<V, DataLoaderError>, b: Result<V, DataLoaderError>) -> bool {
    match a {
        Ok(x) => b is Ok && cloned(x, b->Ok_0),
        Err(e) => b == Err::<V, DataLoaderError>(e),
    }
}

/// What a `load` asks of the runtime.
pub enum Load<K, V, W> {
    /// The cache answered; nothing was scheduled.
    Ready(Result<V, DataLoaderError>),
    /// The waiter was queued. The runtime arms the timer or fetches the batch
    /// as asked, and hands the delivered result to `complete`.
    Pending(Scheduled<K, W>),
}

/// The facade: a TTL cache in front of a batching scheduler, with telemetry.
///
/// Loads that the cache cannot answer are queued with the scheduler; their
/// results are stored in the cache, failures included, when they complete.
pub struct DataLoader<K, V, W> {
    batcher: Batcher<K, W>,
    cache: Cache<K, Result<V, DataLoaderError>>,
    telemetry: TelemetryCollector,
    delay: u64,
}

impl<K: Eq + Hash, V: Clone, W> DataLoader<K, V, W> {
    /// The state of the scheduler.
    pub closed spec fn scheduler(&self) -> SchedulerView<K, W> {
        self.batcher@
    }

    /// The cached outcomes, each with the time it was stored.
    pub closed spec fn cached(&self) -> Map<K, (Result<V, DataLoaderError>, u64)> {
        self.cache.entries()
    }

    /// The time to live of cached outcomes, if they expire.
    pub closed spec fn ttl(&self) -> Option<u64> {
        self.cache.ttl()
    }

    /// The telemetry counters.
    pub closed spec fn telemetry(&self) -> TelemetryView {
        self.telemetry@
    }

    /// The window delay in milliseconds.
    pub closed spec fn delay_spec(&self) -> u64 {
        self.delay
    }

    /// The parts are well formed and keys hash and compare consistently.
    pub closed spec fn wf(&self) -> bool {
        &&& obeys_key_model::<K>()
        &&& self.batcher.wf()
        &&& self.cache.wf()
        &&& self.telemetry.wf()
    }

    /// A well-formed loader has a well-formed scheduler.
    pub proof fn lemma_scheduler_wf(&self)
        requires
            self.wf(),
        ensures
            self.scheduler().wf(),
    {
    }

    /// A loader with an empty cache whose entries never expire, an idle
    /// scheduler with the default batch limit, and the default delay.
    pub fn new() -> (r: Self)
        requires
            obeys_key_model::<K>(),
        ensures
            r.wf(),
            r.cached() == Map::<K, (Result<V, DataLoaderError>, u64)>::empty(),
            r.ttl() == None::<u64>,
            r.scheduler().queued == Map::<K, Seq<W>>::empty(),
            !r.scheduler().open,
            r.scheduler().max_batch_size == DEFAULT_MAX_BATCH_SIZE,
            r.delay_spec() == DEFAULT_DELAY_MS,
    {
        DataLoader {
            batcher: Batcher::new(DEFAULT_MAX_BATCH_SIZE),
            cache: Cache::new(),
            telemetry: TelemetryCollector::new(),
            delay: DEFAULT_DELAY_MS,
        }
    }

    /// The same loader with another batch limit; meant to be set before first use.
    pub fn with_max_batch_size(self, size: usize) -> (r: Self)
        requires
            self.wf(),
            size >= 1,
            self.scheduler().queued.len() == 0,
        ensures
            r.wf(),
            r.cached() == self.cached(),
            r.ttl() == self.ttl(),
            r.delay_spec() == self.delay_spec(),
            r.scheduler().queued == Map::<K, Seq<W>>::empty(),
            !r.scheduler().open,
            r.scheduler().max_batch_size == size,
    {
        let mut l = self;
        l.batcher = Batcher::new(size);
        l
    }

    /// The same loader with another window delay, in milliseconds; meant to be
    /// set before first use.
    pub fn with_delay(self, delay: u64) -> (r: Self)
        requires
            self.wf(),
        ensures
            r.wf(),
            r.cached() == self.cached(),
            r.ttl() == self.ttl(),
            r.scheduler() == self.scheduler(),
            r.delay_spec() == delay,
    {
        let mut l = self;
        l.delay = delay;
        l
    }

    /// The same loader with cached outcomes expiring once older than `ttl`
    /// milliseconds; meant to be set before first use.
    pub fn with_ttl(self, ttl: u64) -> (r: Self)
        requires
            self.wf(),
        ensures
            r.wf(),
            r.cached() == self.cached(),
            r.ttl() == Some(ttl),
            r.scheduler() == self.scheduler(),
            r.delay_spec() == self.delay_spec(),
    {
        let mut l = self;
        l.cache = l.cache.with_ttl(ttl);
        l
    }

    /// The window delay in milliseconds.
    pub fn delay(&self) -> (r: u64)
        ensures
            r == self.delay_spec(),
    {
        self.delay
    }

    /// Starts loading `key` at time `now` for the caller reached through `waiter`.
    ///
    /// A fresh cached outcome answers at once. Otherwise a stale entry is
    /// dropped and the waiter is queued with the scheduler.
    pub fn load(&mut self, key: K, waiter: W, now: u64) -> (r: Load<K, V, W>)
        requires
            old(self).wf(),
        ensures
            final(self).wf(),
            load_step(*old(self), *final(self), key, waiter, now, r),
    {
        self.telemetry.record_request();
        match self.cache.get(&key, now) {
            Some(cached) => {
                self.telemetry.record_cache_hit();
                if cached.is_err() {
                    self.telemetry.record_error();
                }
                Load::Ready(cached)
            },
            None => {
                self.telemetry.record_cache_miss();
                proof {
                    if !old(self).cache.entries().contains_key(key) {
                        assert(self.cache.entries() =~= old(self).cache.entries().remove(key));
                    }
                }
                let scheduled = self.batcher.schedule(key, waiter);
                match &scheduled.batch {
                    Some(b) => {
                        self.telemetry.record_batch(b.len());
                    },
                    None => {},
                }
                Load::Pending(scheduled)
            },
        }
    }

    /// Finishes a load of `key`: stores its `result` at time `now`, failure or
    /// not, and hands it back.
    pub fn complete(&mut self, key: K, result: Result<V, DataLoaderError>, now: u64) -> (r: Result<
        V,
        DataLoaderError,
    >)
        requires
            old(self).wf(),
        ensures
            final(self).wf(),
            complete_step(*old(self), *final(self), key, result, now, r),
    {
        let stored = result.clone();
        self.cache.set(key, stored, now);
        if result.is_err() {
            self.telemetry.record_error();
        }
        proof {
            assert(self.cache.entries().remove(key) =~= old(self).cache.entries().remove(key));
        }
        result
    }

    /// Handles the timer armed for `window`, handing out the batch to fetch if
    /// that window is still open.
    pub fn timer_fired(&mut self, window: u64) -> (r: Option<HashMap<K, Vec<W>>>)
        requires
            old(self).wf(),
        ensures
            final(self).wf(),
            final(self).cached() == old(self).cached(),
            final(self).ttl() == old(self).ttl(),
            final(self).delay_spec() == old(self).delay_spec(),
            (final(self).scheduler(), batch_view(r)) == timer_step(old(self).scheduler(), window),
            final(self).telemetry() == match r {
                Some(b) => old(self).telemetry().batch(b@.len() as usize),
                None => old(self).telemetry(),
            },
    {
        let r = self.batcher.on_timer(window);
        match &r {
            Some(b) => {
                self.telemetry.record_batch(b.len());
            },
            None => {},
        }
        r
    }

    /// Empties the cache; queued loads are not affected.
    pub fn clear(&mut self)
        requires
            old(self).wf(),
        ensures
            final(self).wf(),
            final(self).cached() == Map::<K, (Result<V, DataLoaderError>, u64)>::empty(),
            final(self).ttl() == old(self).ttl(),
            final(self).scheduler() == old(self).scheduler(),
            final(self).telemetry() == old(self).telemetry(),
            final(self).delay_spec() == old(self).delay_spec(),
    {
        self.cache.clear();
    }

    /// Stores `value` for `key` at time `now`, bypassing the scheduler.
    pub fn prime(&mut self, key: K, value: Result<V, DataLoaderError>, now: u64)
        requires
            old(self).wf(),
        ensures
            final(self).wf(),
            final(self).cached() == old(self).cached().insert(key, (value, now)),
            final(self).ttl() == old(self).ttl(),
            final(self).scheduler() == old(self).scheduler(),
            final(self).telemetry() == old(self).telemetry(),
            final(self).delay_spec() == old(self).delay_spec(),
    {
        self.cache.set(key, value, now);
    }

    /// The telemetry counters.
    pub fn metrics(&self) -> (r: MetricsSnapshot)
        requires
            self.wf(),
        ensures
            r.total_requests == self.telemetry().total_requests,
            r.batch_requests == self.telemetry().batch_requests,
            r.cache_hits == self.telemetry().cache_hits,
            r.cache_misses == self.telemetry().cache_misses,
            r.error_count == self.telemetry().errors,
            r.success_count == (if self.telemetry().total_requests >= self.telemetry().errors {
                self.telemetry().total_requests - self.telemetry().errors
            } else {
                0
            }),
            r.recent_batch_total == size_total(self.telemetry().batch_sizes),
            r.recent_batch_count == self.telemetry().batch_sizes.len(),
    {
        self.telemetry.get_metrics()
    }

    /// The scheduler's batch counters.
    pub fn batch_stats(&self) -> (r: BatchStats)
        ensures
            r.batches_dispatched == self.scheduler().metrics.batches_dispatched,
            r.keys_processed == self.scheduler().metrics.keys_processed,
    {
        self.batcher.metrics().get_stats()
    }
}

/// What one `load` of `key` at `now` does: a fresh cached outcome is answered
/// by a copy and leaves the scheduler alone; otherwise a stale entry is
/// dropped and the waiter is queued as `schedule_step` says.
pub open spec fn load_step<K: Eq + Hash, V: Clone, W>(
    before: DataLoader<K, V, W>,
    after: DataLoader<K, V, W>,
    key: K,
    waiter: W,
    now: u64,
    r: Load<K, V, W>,
) -> bool {
    let t = before.telemetry().request();
    &&& after.ttl() == before.ttl()
    &&& after.delay_spec() == before.delay_spec()
    &&& if is_hit(before.cached(), before.ttl(), key, now) {
        &&& r is Ready
        &&& copy_of(before.cached()[key].0, r->Ready_0)
        &&& after.cached() == before.cached()
        &&& after.scheduler() == before.scheduler()
        &&& after.telemetry() == (if r->Ready_0 is Err {
            t.hit().error()
        } else {
            t.hit()
        })
    } else {
        &&& r is Pending
        &&& after.cached() == before.cached().remove(key)
        &&& (after.scheduler(), r->Pending_0.arm_timer, batch_view(r->Pending_0.batch))
            == schedule_step(before.scheduler(), key, waiter)
        &&& after.telemetry() == match r->Pending_0.batch {
            Some(b) => t.miss().batch(b@.len() as usize),
            None => t.miss(),
        }
    }
}

/// What one `complete` of `key` with `result` at `now` does: the outcome is
/// stored with that time, failure or not, and handed back unchanged.
pub open spec fn complete_step<K: Eq + Hash, V: Clone, W>(
    before: DataLoader<K, V, W>,
    after: DataLoader<K, V, W>,
    key: K,
    result: Result<V, DataLoaderError>,
    now: u64,
    r: Result<V, DataLoaderError>,
) -> bool {
    &&& r == result
    &&& after.cached().contains_key(key)
    &&& after.cached()[key].1 == now
    &&& copy_of(result, after.cached()[key].0)
    &&& after.cached().remove(key) == before.cached().remove(key)
    &&& after.ttl() == before.ttl()
    &&& after.delay_spec() == before.delay_spec()
    &&& after.scheduler() == before.scheduler()
    &&& after.telemetry() == (if result is Err {
        before.telemetry().error()
    } else {
        before.telemetry()
    })
}

/// Hands a copy of `outcome` to each of `waiters`, in order.
pub fn deliver<V: Clone, W>(waiters: Vec<W>, outcome: &Result<V, DataLoaderError>) -> (r: Vec<
    (W, Result<V, DataLoaderError>),
>)
    ensures
        r@.len() == waiters@.len(),
        forall|i: int| 0 <= i < r@.len() ==> (#[trigger] r@[i]).0 == waiters@[i] && copy_of(
            *outcome,
            r@[i].1,
        ),
{
    let ghost all = waiters@;
    let mut rest = waiters;
    let mut out: Vec<(W, Result<V, DataLoaderError>)> = Vec::new();
    while rest.len() > 0
        invariant
            out@.len() + rest@.len() == all.len(),
            rest@ == all.subrange(out@.len() as int, all.len() as int),
            forall|i: int| 0 <= i < out@.len() ==> (#[trigger] out@[i]).0 == all[i] && copy_of(
                *outcome,
                out@[i].1,
            ),
        decreases rest@.len(),
    {
        let w = rest.remove(0);
        let copy = outcome.clone();
        out.push((w, copy));
    }
    out
}

} // verus!

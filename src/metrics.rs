use crate::batcher::saturated;
use vstd::prelude::*;

verus! {

/// How many of the latest batch sizes are kept for the running average.
pub const HISTORY_LIMIT: usize = 1000;

/// The sum of a sequence of sizes.
pub open spec fn size_total(s: Seq<usize>) -> int
    decreases s.len(),
{
    if s.len() == 0 {
        0
    } else {
        size_total(s.drop_last()) + s.last()
    }
}

/// The recent batch sizes after one more batch of `n` keys: the oldest one
/// drops out once the history would exceed its limit.
pub open spec fn with_recent(s: Seq<usize>, n: usize) -> Seq<usize> {
    let t = s.push(n);
    if t.len() > HISTORY_LIMIT {
        t.subrange(1, t.len() as int)
    } else {
        t
    }
}

/// The abstract state of the telemetry counters.
pub struct TelemetryView {
    pub total_requests: u64,
    pub batch_requests: u64,
    pub cache_hits: u64,
    pub cache_misses: u64,
    pub errors: u64,
    /// The sizes of the latest batches, oldest first.
    pub batch_sizes: Seq<usize>,
}

impl TelemetryView {
    /// One more request.
    pub open spec fn request(self) -> TelemetryView {
        TelemetryView { total_requests: saturated(self.total_requests, 1), ..self }
    }

    /// One more cache hit.
    pub open spec fn hit(self) -> TelemetryView {
        TelemetryView { cache_hits: saturated(self.cache_hits, 1), ..self }
    }

    /// One more cache miss.
    pub open spec fn miss(self) -> TelemetryView {
        TelemetryView { cache_misses: saturated(self.cache_misses, 1), ..self }
    }

    /// One more request that ended in an error.
    pub open spec fn error(self) -> TelemetryView {
        TelemetryView { errors: saturated(self.errors, 1), ..self }
    }

    /// One more dispatched batch of `n` keys.
    pub open spec fn batch(self, n: usize) -> TelemetryView {
        TelemetryView {
            batch_requests: saturated(self.batch_requests, 1),
            batch_sizes: with_recent(self.batch_sizes, n),
            ..self
        }
    }
}

/// A copy of the counters, with the recent batch sizes summed up.
#[derive(Clone, Copy, Debug, PartialEq, Eq)]
pub struct MetricsSnapshot {
    pub total_requests: u64,
    pub batch_requests: u64,
    pub cache_hits: u64,
    pub cache_misses: u64,
    pub error_count: u64,
    /// Requests that did not end in an error.
    pub success_count: u64,
    /// The sum of the recent batch sizes.
    pub recent_batch_total: u128,
    /// How many recent batch sizes were summed.
    pub recent_batch_count: usize,
}

/// Counts requests, cache hits and misses, errors and batches.
///
/// Every counter saturates at `u64::MAX` rather than wrapping.
pub struct TelemetryCollector {
    total_requests: u64,
    batch_requests: u64,
    cache_hits: u64,
    cache_misses: u64,
    errors: u64,
    batch_sizes: Vec<usize>,
}

impl View for TelemetryCollector {
    type V = TelemetryView;

    closed spec fn view(&self) -> TelemetryView {
        TelemetryView {
            total_requests: self.total_requests,
            batch_requests: self.batch_requests,
            cache_hits: self.cache_hits,
            cache_misses: self.cache_misses,
            errors: self.errors,
            batch_sizes: self.batch_sizes@,
        }
    }
}

proof fn lemma_total_step(s: Seq<usize>, i: int)
    requires
        0 <= i < s.len(),
    ensures
        size_total(s.subrange(0, i + 1)) == size_total(s.subrange(0, i)) + s[i],
{
    assert(s.subrange(0, i + 1).drop_last() =~= s.subrange(0, i));
}

impl TelemetryCollector {
    /// The history holds at most `HISTORY_LIMIT` sizes.
    pub open spec fn wf(&self) -> bool {
        self@.batch_sizes.len() <= HISTORY_LIMIT
    }

    /// All counters at zero and no history.
    pub fn new() -> (r: Self)
        ensures
            r.wf(),
            r@ == (TelemetryView {
                total_requests: 0,
                batch_requests: 0,
                cache_hits: 0,
                cache_misses: 0,
                errors: 0,
                batch_sizes: Seq::empty(),
            }),
    {
        let r = TelemetryCollector {
            total_requests: 0,
            batch_requests: 0,
            cache_hits: 0,
            cache_misses: 0,
            errors: 0,
            batch_sizes: Vec::new(),
        };
        assert(r@.batch_sizes =~= Seq::<usize>::empty());
        r
    }

    /// Counts one request.
    pub fn record_request(&mut self)
        ensures
            final(self)@ == old(self)@.request(),
    {
        self.total_requests = self.total_requests.saturating_add(1);
    }

    /// Counts one request answered from the cache.
    pub fn record_cache_hit(&mut self)
        ensures
            final(self)@ == old(self)@.hit(),
    {
        self.cache_hits = self.cache_hits.saturating_add(1);
    }

    /// Counts one request the cache could not answer.
    pub fn record_cache_miss(&mut self)
        ensures
            final(self)@ == old(self)@.miss(),
    {
        self.cache_misses = self.cache_misses.saturating_add(1);
    }

    /// Counts one request that ended in an error.
    pub fn record_error(&mut self)
        ensures
            final(self)@ == old(self)@.error(),
    {
        self.errors = self.errors.saturating_add(1);
    }

    /// Counts one dispatched batch of `batch_size` keys and keeps its size in
    /// the history.
    pub fn record_batch(&mut self, batch_size: usize)
        requires
            old(self).wf(),
        ensures
            final(self).wf(),
            final(self)@ == old(self)@.batch(batch_size),
    {
        self.batch_requests = self.batch_requests.saturating_add(1);
        self.batch_sizes.push(batch_size);
        if self.batch_sizes.len() > HISTORY_LIMIT {
            self.batch_sizes.remove(0);
        }
        assert(self@.batch_sizes =~= with_recent(old(self)@.batch_sizes, batch_size));
    }

    /// The counters, the successes and the sum of the recent batch sizes.
    pub fn get_metrics(&self) -> (r: MetricsSnapshot)
        requires
            self.wf(),
        ensures
            r.total_requests == self@.total_requests,
            r.batch_requests == self@.batch_requests,
            r.cache_hits == self@.cache_hits,
            r.cache_misses == self@.cache_misses,
            r.error_count == self@.errors,
            r.success_count == (if self@.total_requests >= self@.errors {
                self@.total_requests - self@.errors
            } else {
                0
            }),
            r.recent_batch_total == size_total(self@.batch_sizes),
            r.recent_batch_count == self@.batch_sizes.len(),
    {
        let n = self.batch_sizes.len();
        let mut total: u128 = 0;
        let mut i: usize = 0;
        while i < n
            invariant
                n == self.batch_sizes@.len(),
                n <= HISTORY_LIMIT,
                i <= n,
                total == size_total(self.batch_sizes@.subrange(0, i as int)),
                total <= i * (usize::MAX as int),
            decreases n - i,
        {
            proof {
                lemma_total_step(self.batch_sizes@, i as int);
                assert((i + 1) * (usize::MAX as int) == i * (usize::MAX as int) + usize::MAX)
                    by (nonlinear_arith);
                assert(i * (usize::MAX as int) <= HISTORY_LIMIT * (usize::MAX as int))
                    by (nonlinear_arith)
                    requires
                        i <= HISTORY_LIMIT,
                ;
            }
            total = total + self.batch_sizes[i] as u128;
            i = i + 1;
        }
        assert(self.batch_sizes@.subrange(0, n as int) =~= self.batch_sizes@);
        let success_count = self.total_requests.saturating_sub(self.errors);
        MetricsSnapshot {
            total_requests: self.total_requests,
            batch_requests: self.batch_requests,
            cache_hits: self.cache_hits,
            cache_misses: self.cache_misses,
            error_count: self.errors,
            success_count,
            recent_batch_total: total,
            recent_batch_count: n,
        }
    }
}

} // verus!

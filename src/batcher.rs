use crate::error::DataLoaderError;
use std::collections::HashMap;
use std::hash::Hash;
use vstd::prelude::*;
use vstd::std_specs::hash::obeys_key_model;

verus! {

broadcast use vstd::std_specs::hash::group_hash_axioms;

/// `a + b`, held at `u64::MAX` instead of overflowing.
pub open spec fn saturated(a: u64, b: nat) -> u64 {
    if a + b > u64::MAX {
        u64::MAX
    } else {
        (a + b) as u64
    }
}

/// The identifier that follows `window`; identifiers wrap around.
pub open spec fn next_window(window: u64) -> u64 {
    if window == u64::MAX {
        0
    } else {
        (window + 1) as u64
    }
}

/// A read-only copy of the batch counters.
#[derive(Clone, Copy, Debug, PartialEq, Eq)]
pub struct BatchStats {
    pub batches_dispatched: u64,
    pub keys_processed: u64,
}

/// Counters of dispatched batches and of the keys they carried.
#[derive(Clone, Copy, Debug, PartialEq, Eq)]
pub struct Metrics {
    pub batches_dispatched: u64,
    pub keys_processed: u64,
}

/// The counters after one more batch of `n` keys.
pub open spec fn after_batch(m: Metrics, n: nat) -> Metrics {
    Metrics {
        batches_dispatched: saturated(m.batches_dispatched, 1),
        keys_processed: saturated(m.keys_processed, n),
    }
}

impl Metrics {
    /// Both counters at zero.
    pub fn new() -> (r: Self)
        ensures
            r.batches_dispatched == 0,
            r.keys_processed == 0,
    {
        Metrics { batches_dispatched: 0, keys_processed: 0 }
    }

    /// The current counter values.
    pub fn get_stats(&self) -> (r: BatchStats)
        ensures
            r.batches_dispatched == self.batches_dispatched,
            r.keys_processed == self.keys_processed,
    {
        BatchStats {
            batches_dispatched: self.batches_dispatched,
            keys_processed: self.keys_processed,
        }
    }

    /// Counts one dispatched batch of `n` keys.
    fn record_batch(&mut self, n: usize)
        ensures
            *final(self) == after_batch(*old(self), n as nat),
    {
        self.batches_dispatched = self.batches_dispatched.saturating_add(1);
        self.keys_processed = self.keys_processed.saturating_add(n as u64);
    }
}

/// The waiters of a batch, per key, as sequences.
pub open spec fn seqs<K, W>(m: Map<K, Vec<W>>) -> Map<K, Seq<W>> {
    m.map_values(|v: Vec<W>| v@)
}

/// The queue after `w` starts waiting for `key`: appended to the key's waiters,
/// or as the first waiter of a new entry.
pub open spec fn enqueue<K, W>(q: Map<K, Seq<W>>, key: K, w: W) -> Map<K, Seq<W>> {
    if q.contains_key(key) {
        q.insert(key, q[key].push(w))
    } else {
        q.insert(key, seq![w])
    }
}

/// The abstract state of a scheduler.
#[verifier::reject_recursive_types(K)]
pub struct SchedulerView<K, W> {
    /// The waiters of each key in the open window, in arrival order.
    pub queued: Map<K, Seq<W>>,
    /// Whether a window is open.
    pub open: bool,
    /// The identifier of the current (or next) window.
    pub window: u64,
    /// The number of distinct keys that closes a window at once.
    pub max_batch_size: usize,
    /// The batch counters.
    pub metrics: Metrics,
}

impl<K, W> SchedulerView<K, W> {
    /// A window is open exactly while keys wait, every waiting key has a
    /// waiter, and an open window holds fewer keys than the batch limit.
    pub open spec fn wf(self) -> bool {
        &&& self.queued.dom().finite()
        &&& self.max_batch_size >= 1
        &&& self.open <==> self.queued.len() > 0
        &&& self.queued.len() < self.max_batch_size
        &&& forall|k: K| #[trigger] self.queued.contains_key(k) ==> self.queued[k].len() > 0
    }

    /// The state right after its waiting keys were handed out as a batch.
    pub open spec fn closed(self) -> SchedulerView<K, W> {
        SchedulerView {
            queued: Map::empty(),
            open: false,
            window: next_window(self.window),
            max_batch_size: self.max_batch_size,
            metrics: after_batch(self.metrics, self.queued.len()),
        }
    }
}

/// One `schedule` call in the abstract: the next state, the window a timer is
/// to be armed for, and the batch to fetch now.
pub open spec fn schedule_step<K, W>(s: SchedulerView<K, W>, key: K, w: W) -> (
    SchedulerView<K, W>,
    Option<u64>,
    Option<Map<K, Seq<W>>>,
) {
    let q = enqueue(s.queued, key, w);
    let grown = SchedulerView { queued: q, open: true, ..s };
    if q.len() >= s.max_batch_size {
        (grown.closed(), None, Some(q))
    } else {
        (grown, if s.open { None } else { Some(s.window) }, None)
    }
}

/// A timer for `window` firing, in the abstract: the next state and the batch
/// to fetch. A timer of a window that has already closed does nothing.
pub open spec fn timer_step<K, W>(s: SchedulerView<K, W>, window: u64) -> (
    SchedulerView<K, W>,
    Option<Map<K, Seq<W>>>,
) {
    if s.open && s.window == window {
        (s.closed(), Some(s.queued))
    } else {
        (s, None)
    }
}

/// A batch as sequences, if there is one.
pub open spec fn batch_view<K, W>(b: Option<HashMap<K, Vec<W>>>) -> Option<Map<K, Seq<W>>> {
    match b {
        Some(m) => Some(seqs(m@)),
        None => None,
    }
}

/// What `schedule` asks of the runtime.
pub struct Scheduled<K, W> {
    /// Arm a timer for this window; when it fires, call `on_timer` with it.
    pub arm_timer: Option<u64>,
    /// Fetch these keys now and deliver to their waiters.
    pub batch: Option<HashMap<K, Vec<W>>>,
}

/// Collects waiters per key into windows and hands each window out as one batch.
///
/// `W` is whatever the runtime uses to reach a waiting caller.
pub struct Batcher<K, W> {
    pending: HashMap<K, Vec<W>>,
    open: bool,
    window: u64,
    max_batch_size: usize,
    metrics: Metrics,
}

impl<K: Eq + Hash, W> View for Batcher<K, W> {
    type V = SchedulerView<K, W>;

    closed spec fn view(&self) -> SchedulerView<K, W> {
        SchedulerView {
            queued: seqs(self.pending@),
            open: self.open,
            window: self.window,
            max_batch_size: self.max_batch_size,
            metrics: self.metrics,
        }
    }
}

proof fn lemma_seqs_dom<K, W>(m: Map<K, Vec<W>>)
    ensures
        seqs(m).dom() == m.dom(),
{
    assert(seqs(m).dom() =~= m.dom());
}

impl<K: Eq + Hash, W> Batcher<K, W> {
    /// The keys hash and compare consistently and the state is well formed.
    pub open spec fn wf(&self) -> bool {
        &&& obeys_key_model::<K>()
        &&& self@.wf()
    }

    /// An idle scheduler that closes a window at `max_batch_size` distinct keys.
    pub fn new(max_batch_size: usize) -> (r: Self)
        requires
            obeys_key_model::<K>(),
            max_batch_size >= 1,
        ensures
            r.wf(),
            r@.queued == Map::<K, Seq<W>>::empty(),
            !r@.open,
            r@.window == 0,
            r@.max_batch_size == max_batch_size,
            r@.metrics == (Metrics { batches_dispatched: 0, keys_processed: 0 }),
    {
        let r = Batcher {
            pending: HashMap::new(),
            open: false,
            window: 0,
            max_batch_size,
            metrics: Metrics::new(),
        };
        proof {
            lemma_seqs_dom(r.pending@);
            assert(r@.queued =~= Map::<K, Seq<W>>::empty());
        }
        r
    }

    /// The batch counters.
    pub fn metrics(&self) -> (r: Metrics)
        ensures
            r == self@.metrics,
    {
        self.metrics
    }

    /// Adds `waiter` to the waiters of `key`.
    ///
    /// A key that already waits in the open window gets no new entry, so it is
    /// fetched once for all its waiters. The first key of a window asks for a
    /// timer; reaching the batch limit hands out every waiting key at once.
    pub fn schedule(&mut self, key: K, waiter: W) -> (r: Scheduled<K, W>)
        requires
            old(self).wf(),
        ensures
            final(self).wf(),
            (final(self)@, r.arm_timer, batch_view(r.batch)) == schedule_step(
                old(self)@,
                key,
                waiter,
            ),
    {
        let ghost q0 = self@.queued;
        proof {
            lemma_seqs_dom(self.pending@);
        }
        let mut waiters = match self.pending.remove(&key) {
            Some(v) => v,
            None => Vec::new(),
        };
        waiters.push(waiter);
        self.pending.insert(key, waiters);
        let ghost q = enqueue(q0, key, waiter);
        proof {
            lemma_seqs_dom(self.pending@);
            assert(seqs(self.pending@) =~= q);
        }
        if self.pending.len() >= self.max_batch_size {
            self.open = true;
            let batch = self.take_batch();
            Scheduled { arm_timer: None, batch: Some(batch) }
        } else {
            let arm = if self.open {
                None
            } else {
                Some(self.window)
            };
            self.open = true;
            Scheduled { arm_timer: arm, batch: None }
        }
    }

    /// Handles the timer armed for `window`: hands out the waiting keys if that
    /// window is still open, and does nothing otherwise.
    pub fn on_timer(&mut self, window: u64) -> (r: Option<HashMap<K, Vec<W>>>)
        requires
            old(self).wf(),
        ensures
            final(self).wf(),
            (final(self)@, batch_view(r)) == timer_step(old(self)@, window),
    {
        if self.open && self.window == window {
            Some(self.take_batch())
        } else {
            None
        }
    }

    /// Takes every waiting key as one batch and closes the window.
    fn take_batch(&mut self) -> (r: HashMap<K, Vec<W>>)
        requires
            obeys_key_model::<K>(),
            old(self)@.queued.dom().finite(),
            old(self).max_batch_size >= 1,
        ensures
            obeys_key_model::<K>(),
            final(self)@ == old(self)@.closed(),
            seqs(r@) == old(self)@.queued,
            final(self)@.wf(),
    {
        let mut batch = HashMap::new();
        std::mem::swap(&mut batch, &mut self.pending);
        proof {
            lemma_seqs_dom(batch@);
            lemma_seqs_dom(self.pending@);
            assert(seqs(self.pending@) =~= Map::<K, Seq<W>>::empty());
        }
        let n = batch.len();
        self.metrics.record_batch(n);
        self.open = false;
        self.window = if self.window == u64::MAX {
            0
        } else {
            self.window + 1
        };
        batch
    }
}

/// What a caller waiting for `key` receives from a batch whose fetch returned
/// `results`: the value, the fetch's failure for the key, or `KeyNotFound`.
pub open spec fn resolution<K, V>(results: Map<K, Result<V, String>>, key: K) -> Result<
    V,
    DataLoaderError,
> {
    if results.contains_key(key) {
        match results[key] {
            Ok(v) => Ok(v),
            Err(msg) => Err(DataLoaderError::BatchError(msg)),
        }
    } else {
        Err(DataLoaderError::KeyNotFound)
    }
}

/// Takes the result for `key` out of a fetch's `results`.
pub fn resolve_key<K: Eq + Hash, V>(results: &mut HashMap<K, Result<V, String>>, key: &K) -> (r:
    Result<V, DataLoaderError>)
    requires
        obeys_key_model::<K>(),
    ensures
        r == resolution(old(results)@, *key),
        final(results)@ == old(results)@.remove(*key),
{
    match results.remove(key) {
        Some(Ok(v)) => Ok(v),
        Some(Err(msg)) => Err(DataLoaderError::BatchError(msg)),
        None => Err(DataLoaderError::KeyNotFound),
    }
}

} // verus!

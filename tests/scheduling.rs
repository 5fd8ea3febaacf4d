use dataloader::batcher::resolve_key;
use dataloader::{deliver, BatchStats, Batcher, DataLoader, DataLoaderError, Load, Metrics};
use std::collections::HashMap;

fn pending(l: Load<u64, String, u32>) -> dataloader::batcher::Scheduled<u64, u32> {
    match l {
        Load::Pending(s) => s,
        Load::Ready(_) => panic!("expected the load to be queued"),
    }
}

#[test]
fn same_key_in_one_window_is_fetched_once() {
    let mut l: DataLoader<u64, String, u32> = DataLoader::new();
    let first = pending(l.load(7, 1, 0));
    assert_eq!(first.arm_timer, Some(0));
    assert!(first.batch.is_none());
    for w in 2..=5u32 {
        let s = pending(l.load(7, w, 1));
        assert_eq!(s.arm_timer, None);
        assert!(s.batch.is_none());
    }
    let batch = l.timer_fired(0).expect("the window's timer hands out its batch");
    assert_eq!(batch.len(), 1);
    assert_eq!(batch[&7], vec![1, 2, 3, 4, 5]);
    assert_eq!(l.batch_stats(), BatchStats { batches_dispatched: 1, keys_processed: 1 });
    let out = deliver(batch[&7].clone(), &Ok("seven".to_string()));
    assert_eq!(out.len(), 5);
    for (i, (w, r)) in out.iter().enumerate() {
        assert_eq!(*w, i as u32 + 1);
        assert_eq!(r, &Ok("seven".to_string()));
    }
}

#[test]
fn missing_key_in_batch_result_is_key_not_found() {
    let mut results: HashMap<u64, Result<String, String>> = HashMap::new();
    results.insert(1, Ok("a".to_string()));
    results.insert(3, Ok("c".to_string()));
    assert_eq!(resolve_key(&mut results, &1), Ok("a".to_string()));
    assert_eq!(resolve_key(&mut results, &2), Err(DataLoaderError::KeyNotFound));
    assert_eq!(resolve_key(&mut results, &3), Ok("c".to_string()));
    assert!(results.is_empty());
}

#[test]
fn per_key_failure_becomes_batch_error() {
    let mut results: HashMap<u64, Result<String, String>> = HashMap::new();
    results.insert(4, Err("no such row".to_string()));
    assert_eq!(
        resolve_key(&mut results, &4),
        Err(DataLoaderError::BatchError("no such row".to_string()))
    );
}

#[test]
fn batch_limit_two_splits_three_keys() {
    let mut l: DataLoader<u64, String, u32> = DataLoader::new().with_max_batch_size(2);
    let a = pending(l.load(1, 10, 0));
    assert_eq!(a.arm_timer, Some(0));
    assert!(a.batch.is_none());
    let b = pending(l.load(2, 20, 0));
    let first = b.batch.expect("reaching the limit hands out the batch");
    assert_eq!(first.len(), 2);
    assert_eq!(first[&1], vec![10]);
    assert_eq!(first[&2], vec![20]);
    let c = pending(l.load(3, 30, 0));
    assert_eq!(c.arm_timer, Some(1));
    assert!(c.batch.is_none());
    assert!(l.timer_fired(0).is_none());
    let second = l.timer_fired(1).expect("the new window is handed out by its own timer");
    assert_eq!(second.len(), 1);
    assert_eq!(second[&3], vec![30]);
    assert_eq!(l.batch_stats(), BatchStats { batches_dispatched: 2, keys_processed: 3 });
    assert_eq!(l.metrics().batch_requests, 2);
    assert_eq!(l.metrics().recent_batch_total, 3);
}

#[test]
fn empty_window_never_fetches() {
    let mut b: Batcher<u64, u32> = Batcher::new(3);
    assert!(b.on_timer(0).is_none());
    assert_eq!(b.metrics(), Metrics { batches_dispatched: 0, keys_processed: 0 });
}

#[test]
fn batcher_counts_keys_of_each_batch() {
    let mut b: Batcher<u64, u32> = Batcher::new(3);
    assert!(b.schedule(1, 1).batch.is_none());
    assert!(b.schedule(2, 2).batch.is_none());
    let s = b.schedule(3, 3);
    assert_eq!(s.batch.map(|m| m.len()), Some(3));
    let stats = b.metrics().get_stats();
    assert_eq!(stats.batches_dispatched, 1);
    assert_eq!(stats.keys_processed, 3);
}

#[test]
fn key_arriving_after_snapshot_starts_new_window() {
    let mut b: Batcher<u64, u32> = Batcher::new(10);
    assert_eq!(b.schedule(5, 1).arm_timer, Some(0));
    let batch = b.on_timer(0).unwrap();
    assert_eq!(batch[&5], vec![1]);
    let again = b.schedule(5, 2);
    assert_eq!(again.arm_timer, Some(1));
    assert_eq!(b.on_timer(1).unwrap()[&5], vec![2]);
}

#[test]
fn new_metrics_are_zero() {
    let m = Metrics::new();
    assert_eq!(m.get_stats(), BatchStats { batches_dispatched: 0, keys_processed: 0 });
}

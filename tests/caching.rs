use dataloader::{Cache, DataLoader, DataLoaderError, Load};

fn ready(l: Load<u64, String, u32>) -> Result<String, DataLoaderError> {
    match l {
        Load::Ready(r) => r,
        Load::Pending(_) => panic!("expected an answer from the cache"),
    }
}

#[test]
fn completed_load_is_cached_until_ttl() {
    let mut l: DataLoader<u64, String, u32> = DataLoader::new().with_ttl(100);
    assert!(matches!(l.load(1, 1, 0), Load::Pending(_)));
    assert_eq!(l.timer_fired(0).unwrap()[&1], vec![1]);
    assert_eq!(l.complete(1, Ok("one".to_string()), 0), Ok("one".to_string()));
    assert_eq!(ready(l.load(1, 2, 50)), Ok("one".to_string()));
    assert_eq!(ready(l.load(1, 3, 100)), Ok("one".to_string()));
    match l.load(1, 4, 101) {
        Load::Pending(s) => assert_eq!(s.arm_timer, Some(1)),
        Load::Ready(_) => panic!("a stale entry must not answer"),
    }
    let m = l.metrics();
    assert_eq!(m.total_requests, 4);
    assert_eq!(m.cache_hits, 2);
    assert_eq!(m.cache_misses, 2);
}

#[test]
fn primed_key_needs_no_fetch() {
    let mut l: DataLoader<u64, String, u32> = DataLoader::new();
    l.prime(9, Ok("nine".to_string()), 0);
    assert_eq!(ready(l.load(9, 1, 1_000_000)), Ok("nine".to_string()));
    assert!(l.timer_fired(0).is_none());
    assert_eq!(l.batch_stats().batches_dispatched, 0);
}

#[test]
fn clear_forces_a_new_fetch() {
    let mut l: DataLoader<u64, String, u32> = DataLoader::new();
    l.prime(2, Ok("two".to_string()), 0);
    l.clear();
    match l.load(2, 1, 0) {
        Load::Pending(s) => assert_eq!(s.arm_timer, Some(0)),
        Load::Ready(_) => panic!("a cleared key must be fetched again"),
    }
    assert_eq!(l.timer_fired(0).unwrap()[&2], vec![1]);
}

#[test]
fn failure_is_sticky() {
    let mut l: DataLoader<u64, String, u32> = DataLoader::new();
    assert!(matches!(l.load(3, 1, 0), Load::Pending(_)));
    let failure = DataLoaderError::BatchError("upstream down".to_string());
    assert_eq!(l.complete(3, Err(failure.clone()), 0), Err(failure.clone()));
    assert_eq!(ready(l.load(3, 2, 5)), Err(failure));
    assert!(l.timer_fired(0).unwrap().contains_key(&3));
    assert_eq!(l.batch_stats().batches_dispatched, 1);
    assert_eq!(l.metrics().error_count, 2);
}

#[test]
fn defaults_and_config() {
    let l: DataLoader<u64, String, u32> = DataLoader::new();
    assert_eq!(l.delay(), 10);
    let l = l.with_delay(25);
    assert_eq!(l.delay(), 25);
}

#[test]
fn cache_without_ttl_never_expires() {
    let mut c: Cache<u64, String> = Cache::new();
    assert_eq!(c.get(&1, 0), None);
    c.set(1, "a".to_string(), 0);
    assert_eq!(c.get(&1, u64::MAX), Some("a".to_string()));
}

#[test]
fn cache_ttl_evicts_on_read() {
    let mut c: Cache<u64, String> = Cache::new().with_ttl(10);
    c.set(1, "a".to_string(), 100);
    assert_eq!(c.get(&1, 110), Some("a".to_string()));
    assert_eq!(c.get(&1, 111), None);
    assert_eq!(c.get(&1, 100), None);
}

#[test]
fn cache_clock_going_back_counts_as_fresh() {
    let mut c: Cache<u64, String> = Cache::new().with_ttl(10);
    c.set(1, "a".to_string(), 100);
    assert_eq!(c.get(&1, 50), Some("a".to_string()));
}

#[test]
fn cache_set_overwrites_and_clear_empties() {
    let mut c: Cache<u64, String> = Cache::new();
    c.set(1, "a".to_string(), 0);
    c.set(1, "b".to_string(), 0);
    assert_eq!(c.get(&1, 0), Some("b".to_string()));
    c.clear();
    assert_eq!(c.get(&1, 0), None);
}

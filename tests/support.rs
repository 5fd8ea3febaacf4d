use dataloader::integrations::sqlx::{
    failure_for_all, placeholders, users_by_id, GenericSQLLoader, User, UserLoader,
};
use dataloader::{DataLoaderError, TelemetryCollector};

#[test]
fn error_messages() {
    assert_eq!(
        DataLoaderError::ChannelClosed.message(),
        "Channel closed while waiting for batch result"
    );
    assert_eq!(
        DataLoaderError::BatchError("x".to_string()).message(),
        "Batch load error: x"
    );
    assert_eq!(DataLoaderError::KeyNotFound.message(), "Key not found in batch results");
    assert_eq!(DataLoaderError::Timeout.message(), "Timeout waiting for batch");
    assert_eq!(
        DataLoaderError::from("bad".to_string()),
        DataLoaderError::BatchError("bad".to_string())
    );
}

#[test]
fn telemetry_counts() {
    let mut t = TelemetryCollector::new();
    t.record_request();
    t.record_request();
    t.record_request();
    t.record_cache_hit();
    t.record_cache_miss();
    t.record_error();
    t.record_batch(4);
    t.record_batch(6);
    let m = t.get_metrics();
    assert_eq!(m.total_requests, 3);
    assert_eq!(m.cache_hits, 1);
    assert_eq!(m.cache_misses, 1);
    assert_eq!(m.error_count, 1);
    assert_eq!(m.success_count, 2);
    assert_eq!(m.batch_requests, 2);
    assert_eq!(m.recent_batch_total, 10);
    assert_eq!(m.recent_batch_count, 2);
}

#[test]
fn telemetry_history_keeps_latest_thousand() {
    let mut t = TelemetryCollector::new();
    t.record_batch(1000);
    for _ in 0..1000 {
        t.record_batch(2);
    }
    let m = t.get_metrics();
    assert_eq!(m.batch_requests, 1001);
    assert_eq!(m.recent_batch_count, 1000);
    assert_eq!(m.recent_batch_total, 2000);
}

#[test]
fn telemetry_success_count_saturates() {
    let mut t = TelemetryCollector::new();
    t.record_error();
    assert_eq!(t.get_metrics().success_count, 0);
}

#[test]
fn placeholder_lists() {
    assert_eq!(placeholders(0), "");
    assert_eq!(placeholders(1), "$1");
    assert_eq!(placeholders(3), "$1, $2, $3");
    assert!(placeholders(12).ends_with("$11, $12"));
}

#[test]
fn user_query() {
    let l = UserLoader::new(());
    assert_eq!(l.query(2), "SELECT id, name, email FROM users WHERE id IN ($1, $2)");
}

#[test]
fn generic_query() {
    let l: GenericSQLLoader<(), User, i32> = GenericSQLLoader::new((), "posts", "post_id");
    assert_eq!(l.query(1), "SELECT * FROM posts WHERE post_id IN ($1)");
}

#[test]
fn rows_are_filed_by_id() {
    let a = User { id: 1, name: "Ann".to_string(), email: "ann@example.com".to_string() };
    let b = User { id: 2, name: "Bo".to_string(), email: "bo@example.com".to_string() };
    let m = users_by_id(vec![a.clone(), b.clone()]);
    assert_eq!(m.len(), 2);
    assert_eq!(m[&1], Ok(a));
    assert_eq!(m[&2], Ok(b));
}

#[test]
fn query_failure_fails_every_key() {
    let m = failure_for_all(&vec![4, 5], "timeout");
    assert_eq!(m.len(), 2);
    assert_eq!(m[&4], Err("Database error: timeout".to_string()));
    assert_eq!(m[&5], Err("Database error: timeout".to_string()));
}

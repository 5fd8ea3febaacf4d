//! Request coalescing with a keyed TTL cache.
//!
//! The library holds the decisions of a data loader as plain, verified state
//! machines: a TTL cache driven by an injected clock, a batching scheduler
//! that collects waiters per key and hands out one batch per window, the
//! telemetry counters, and a facade that ties them together. Running the
//! fetch, arming timers and delivering results to callers is left to the
//! surrounding runtime.
pub mod batcher;
pub mod cache;
pub mod error;
pub mod integrations;
pub mod laws;
pub mod loader;
pub mod metrics;

pub use batcher::{BatchStats, Batcher, Metrics};
pub use cache::Cache;
pub use error::DataLoaderError;
pub use loader::{deliver, DataLoader, Load};
pub use metrics::{MetricsSnapshot, TelemetryCollector};

//! Host metrics snapshot service: the snapshot cache and freshness
//! controller, the temperature history ring buffer with threshold
//! classification, and the resilient listener acquisition sequence.
//!
//! Metric collection itself is platform work done by a caller through the
//! [`metrics::MetricSource`] capability trait; everything that decides,
//! classifies, aggregates or caches is verified here.

pub mod aggregate;
pub mod cache;
pub mod classify;
pub mod history;
pub mod listener;
pub mod metrics;
pub mod snapshot;
pub mod text;

pub use cache::{CacheStatus, SnapshotCache};
pub use classify::{classify, TempStatus};
pub use history::TempHistory;
pub use listener::PortSearch;
pub use metrics::MetricSource;
pub use snapshot::Snapshot;

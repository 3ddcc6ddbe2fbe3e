//! Verified core of a host-telemetry panel: a snapshot aggregator that
//! filters and deduplicates disk readings, derives zero-safe usage
//! percentages, and folds raw per-subsystem counters into one immutable
//! report; plus the decision logic of a blocking file/folder prompt bridge.

pub mod disks;
pub mod network;
pub mod percent;
pub mod prompt;
pub mod snapshot;
pub mod text;

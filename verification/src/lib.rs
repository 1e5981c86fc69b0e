//! Core of a background usage-dashboard poller.
//!
//! The library holds the verified heart of a desktop status widget that
//! periodically fetches usage metrics from a primary and an optional
//! secondary accounting service: credential parsing and expiry checks, the
//! fetch-cycle decisions, the snapshot combiner, the runtime-mutable polling
//! directive, and the debounce rule for the credential-file watcher.
//! Transport, file access and presentation stay outside; they hand plain
//! values in and take plain values back.
//!
//! Ratio-like quantities (utilizations, request counts, monthly limits) are
//! carried as unsigned integers in hundredths of their natural unit, so a
//! utilization of 12.50 percent is stored as `1250`.

pub mod calendar;
pub mod copilot;
pub mod credentials;
pub mod cycle;
pub mod debounce;
pub mod errors;
pub mod json;
pub mod polling;
pub mod snapshot;

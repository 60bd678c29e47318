//! Health scoring and metrics exposition for a long-running network service.
//!
//! The crate centres on three pieces: a pure health-score computation over a
//! small set of boolean signals, a registry of named integer gauges, and an
//! exporter that renders every registered metric in the standard text
//! exposition format.

pub mod export;
pub mod metrics;
pub mod registry;
pub mod score;

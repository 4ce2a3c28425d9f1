//! Re-aggregation and export of command savings statistics.
pub mod canon;
pub mod stats;
pub mod report;
pub mod period;
pub mod csv;

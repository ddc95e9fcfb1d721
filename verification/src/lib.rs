//! Analytics aggregation for a trading simulation: daily net-value series,
//! per-account and per-position histories, and deduplicated order and
//! transaction records, with a point-in-time snapshot of all of it.

pub mod analysers;
pub mod benchmark;
pub mod configs;
pub mod identity;
pub mod laws;
pub mod ledger;
pub mod live;
pub mod metrics;
pub mod models;
pub mod plugin;
pub mod store;
pub mod table;

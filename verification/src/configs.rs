//! The plugin's configuration.

use crate::benchmark::BenchmarkSpec;
use vstd::prelude::*;

verus! {

/// The schedule on which the daily collection runs where the configuration
/// names none: every day at midnight.
pub open spec fn default_cron_expr() -> Seq<char> {
    "0 0 0 * * *"@
}

/// What the plugin is configured with.
pub struct Config {
    /// The benchmark basket: instrument and weight.
    pub benchmark: BenchmarkSpec,
    /// The schedule of the daily collection, as a cron expression.
    pub daily_collect_cron_expr: Option<String>,
}

impl Config {
    /// The schedule of the daily collection: the configured one, or the
    /// default where none is configured.
    pub open spec fn cron_expr_spec(&self) -> Seq<char> {
        match self.daily_collect_cron_expr {
            Some(expr) => expr@,
            None => default_cron_expr(),
        }
    }

    /// The schedule of the daily collection: the configured one, or the
    /// default where none is configured.
    pub fn cron_expr(&self) -> (expr: String)
        ensures
            expr@ == self.cron_expr_spec(),
    {
        match &self.daily_collect_cron_expr {
            Some(expr) => expr.clone(),
            None => "0 0 0 * * *".to_owned(),
        }
    }
}

} // verus!

//! The plugin's life: installed with a configuration, fed the host's events,
//! and asked for a snapshot when it is uninstalled.

use crate::analysers::{Analyser, Snapshot};
use crate::configs::Config;
use crate::live::{Account, Moment, Order, Transaction};
use crate::metrics::Metrics;
use crate::models::{Amount, OrderRecord, TransactionRecord};
use crate::table::Named;
use vstd::prelude::*;
use vstd::std_specs::convert::FromSpec;

verus! {

/// What the host delivers to the installed plugin.
pub enum HostEvent {
    /// A trade was executed.
    Trade { transaction: Transaction },
    /// An order passed its creation checks.
    OrderCreationPass { order: Order },
    /// The daily collection is due. The host's clock, the two net values and
    /// all live accounts are read once, at the start of the tick.
    DailyCollection {
        now: Moment,
        benchmark_value: Amount,
        portfolio_value: Amount,
        accounts: Vec<Account>,
    },
}

impl HostEvent {
    /// What the event makes of the gathered state.
    pub open spec fn apply(self, metrics: Metrics) -> Metrics {
        match self {
            HostEvent::Trade { transaction } => metrics.insert_transaction_if_absent(
                TransactionRecord::from_spec(&transaction),
            ),
            HostEvent::OrderCreationPass { order } => metrics.insert_order_if_absent(
                OrderRecord::from_spec(&order),
            ),
            HostEvent::DailyCollection { now, benchmark_value, portfolio_value, accounts } => {
                metrics.collect_daily(now, benchmark_value, portfolio_value, accounts@)
            },
        }
    }
}

/// The analysis plugin: nothing until it is installed, an aggregator after.
pub struct AnalysisPlugin {
    analyser: Option<Analyser>,
}

impl AnalysisPlugin {
    /// The plugin has been installed.
    pub closed spec fn installed(&self) -> bool {
        self.analyser.is_some()
    }

    /// What the installed plugin has gathered.
    pub closed spec fn metrics(&self) -> Metrics {
        self.analyser->Some_0.0.metrics()
    }

    /// The benchmark basket of the installed plugin.
    pub closed spec fn benchmark(&self) -> Seq<Named<i64>> {
        self.analyser->Some_0.0.benchmark()
    }

    /// The plugin's invariant: where there is an aggregator, it is valid.
    pub closed spec fn wf(&self) -> bool {
        self.analyser.is_some() ==> self.analyser->Some_0.0.wf()
    }

    /// The plugin before it is installed.
    pub fn new() -> (plugin: Self)
        ensures
            plugin.wf(),
            !plugin.installed(),
    {
        AnalysisPlugin { analyser: None }
    }

    /// The name under which the host knows the plugin.
    pub fn name(&self) -> (name: &'static str)
        ensures
            name@ == "finangen_analysis_plugin"@,
    {
        "finangen_analysis_plugin"
    }

    /// Installs the plugin: a new aggregator for the configured basket, with
    /// nothing gathered, takes the place of any earlier one. Returns the
    /// schedule on which the host is to deliver the daily collection.
    pub fn install(&mut self, config: Config) -> (cron_expr: String)
        requires
            config.benchmark.wf(),
        ensures
            final(self).wf(),
            final(self).installed(),
            final(self).benchmark() == config.benchmark.slots(),
            final(self).metrics() == Metrics::empty(),
            cron_expr@ == config.cron_expr_spec(),
    {
        let cron_expr = config.cron_expr();
        self.analyser = Some(Analyser::new(config.benchmark));
        cron_expr
    }

    /// Hands an event to the aggregator. Before the plugin is installed
    /// there is nothing to hand it to, and the event is dropped.
    pub fn dispatch(&mut self, event: HostEvent)
        requires
            old(self).wf(),
        ensures
            final(self).wf(),
            final(self).installed() == old(self).installed(),
            old(self).installed() ==> final(self).benchmark() == old(self).benchmark()
                && final(self).metrics() == event.apply(old(self).metrics()),
    {
        match &mut self.analyser {
            Some(analyser) => {
                match event {
                    HostEvent::Trade { transaction } => {
                        analyser.0.collect_transaction(&transaction);
                    },
                    HostEvent::OrderCreationPass { order } => {
                        analyser.0.collect_order(&order);
                    },
                    HostEvent::DailyCollection { now, benchmark_value, portfolio_value, accounts } => {
                        analyser.0.collect_daily(&now, benchmark_value, portfolio_value, &accounts);
                    },
                }
            },
            None => {},
        }
    }

    /// The aggregator, where the plugin is installed.
    pub fn analyser(&self) -> (analyser: Option<&Analyser>)
        ensures
            analyser.is_some() == self.installed(),
            self.installed() ==> analyser->Some_0.0.metrics() == self.metrics()
                && analyser->Some_0.0.benchmark() == self.benchmark() && (self.wf()
                ==> analyser->Some_0.0.wf()),
    {
        self.analyser.as_ref()
    }

    /// The snapshot that the plugin leaves behind when it is uninstalled:
    /// everything gathered, with the benchmark basket. A plugin that was
    /// never installed leaves none.
    pub fn uninstall(&self) -> (snapshot: Option<Snapshot>)
        requires
            self.wf(),
        ensures
            snapshot.is_some() == self.installed(),
            self.installed() ==> snapshot->Some_0.metrics() == self.metrics()
                && snapshot->Some_0.benchmark_instruments.slots() == self.benchmark()
                && snapshot->Some_0.benchmark_instruments.wf() && snapshot->Some_0.accounts.wf(),
    {
        match &self.analyser {
            Some(analyser) => Some(analyser.0.get_snapshot()),
            None => None,
        }
    }
}

} // verus!

//! The aggregator: what it does at a collection tick, at an order and at a
//! trade, and the snapshot it hands out.

use crate::benchmark::{
    benchmark_terms, priced_terms, weight_sum, BenchmarkSpec, BenchmarkTerms, PriceBoard,
};
use crate::live::{Account, Moment, Order, Transaction};
use crate::metrics::{position_batch, positions_of, with_accounts_recorded, Metrics};
use crate::models::{AccountRecord, Amount, OrderRecord, PositionRecord, TransactionRecord};
use crate::store::{batches_as_sequences, MetricsStore};
use crate::table::{NameTable, Named};
use std::collections::HashMap;
use vstd::prelude::*;
use vstd::std_specs::convert::FromSpec;

verus! {

/// An independently owned copy of all aggregated state at one point in time,
/// together with the benchmark basket.
pub struct Snapshot {
    pub benchmark_instruments: BenchmarkSpec,
    pub portfolio_net_value: Vec<Amount>,
    pub benchmark_net_value: Vec<Amount>,
    pub accounts: NameTable<Vec<AccountRecord>>,
    pub positions: HashMap<i64, Vec<PositionRecord>>,
    pub orders: Vec<OrderRecord>,
    pub transactions: Vec<TransactionRecord>,
}

impl Snapshot {
    /// The aggregated state that the snapshot holds.
    pub open spec fn metrics(&self) -> Metrics {
        Metrics {
            portfolio: self.portfolio_net_value@,
            benchmark: self.benchmark_net_value@,
            accounts: self.accounts.sequences(),
            positions: batches_as_sequences(self.positions@),
            orders: self.orders@,
            transactions: self.transactions@,
        }
    }
}

/// The aggregator's state: the benchmark basket it was made with, and the
/// store that its operations fill.
pub struct AnalyserInner {
    benchmark_instruments: BenchmarkSpec,
    store: MetricsStore,
}

impl AnalyserInner {
    /// The benchmark basket, instrument after instrument. It never changes.
    pub closed spec fn benchmark(&self) -> Seq<Named<i64>> {
        self.benchmark_instruments.slots()
    }

    /// What has been gathered so far.
    pub closed spec fn metrics(&self) -> Metrics {
        self.store@
    }

    /// The aggregator's invariant: its basket and its store are valid.
    pub closed spec fn wf(&self) -> bool {
        &&& self.benchmark_instruments.wf()
        &&& self.store.wf()
    }

    /// A valid aggregator holds a state in which the two daily series are
    /// equally long and no id is recorded twice.
    pub proof fn lemma_valid_state(&self)
        requires
            self.wf(),
        ensures
            self.metrics().inv(),
    {
        self.store.lemma_valid_state();
    }

    /// The benchmark basket.
    pub fn benchmark_instruments(&self) -> (basket: &BenchmarkSpec)
        ensures
            basket.slots() == self.benchmark(),
            self.wf() ==> basket.wf(),
    {
        &self.benchmark_instruments
    }

    /// The terms and the divisor of the benchmark's net value under the
    /// prices in `prices`: a term for each instrument of the basket that has a
    /// price, and the sum of all weights, those of unpriced instruments too.
    pub fn benchmark_terms(&self, prices: &PriceBoard) -> (terms: BenchmarkTerms)
        requires
            prices.wf(),
        ensures
            terms.priced@ == priced_terms(self.benchmark(), prices@),
            terms.total_weight == weight_sum(self.benchmark()),
    {
        benchmark_terms(&self.benchmark_instruments, prices)
    }

    /// One collection tick at `now`. Appends the two net values to their
    /// series, appends a record of each account to that account's history,
    /// and stores the records of all positions of all accounts under the
    /// tick's timestamp, in place of any batch that stood there.
    pub fn collect_daily(
        &mut self,
        now: &Moment,
        benchmark_value: Amount,
        portfolio_value: Amount,
        accounts: &Vec<Account>,
    )
        requires
            old(self).wf(),
        ensures
            final(self).wf(),
            final(self).benchmark() == old(self).benchmark(),
            final(self).metrics() == old(self).metrics().collect_daily(
                *now,
                benchmark_value,
                portfolio_value,
                accounts@,
            ),
    {
        self.store.append_daily(portfolio_value, benchmark_value);
        let ghost appended = self.store@;
        let mut batch: Vec<PositionRecord> = Vec::new();
        let mut i: usize = 0;
        while i < accounts.len()
            invariant
                i <= accounts@.len(),
                self.store.wf(),
                self.benchmark_instruments == old(self).benchmark_instruments,
                self.store@ == (Metrics {
                    accounts: with_accounts_recorded(appended.accounts, accounts@.take(i as int), *now),
                    ..appended
                }),
                batch@ == position_batch(accounts@.take(i as int), *now),
            decreases accounts@.len() - i,
        {
            let account = &accounts[i];
            proof {
                assert(accounts@.take(i as int + 1).drop_last() =~= accounts@.take(i as int));
                assert(accounts@.take(i as int + 1).last() == *account);
            }
            self.store.upsert_account_record(account.name.clone(), AccountRecord::from((account, now)));
            let ghost before = batch@;
            let mut j: usize = 0;
            while j < account.positions.len()
                invariant
                    j <= account.positions@.len(),
                    batch@ == before + positions_of(*account, *now).take(j as int),
                decreases account.positions@.len() - j,
            {
                batch.push(PositionRecord::from((account.id, &account.positions[j], now)));
                proof {
                    let all = positions_of(*account, *now);
                    assert(all.take(j as int + 1) =~= all.take(j as int).push(all[j as int]));
                    assert(batch@ =~= before + all.take(j as int + 1));
                }
                j += 1;
            }
            proof {
                let all = positions_of(*account, *now);
                assert(all.take(j as int) =~= all);
            }
            i += 1;
        }
        proof {
            assert(accounts@.take(i as int) =~= accounts@);
        }
        self.store.replace_position_batch(now.timestamp, batch);
    }

    /// Records the order as it stands now, unless an order with its id is
    /// already recorded: then nothing changes.
    pub fn collect_order(&mut self, order: &Order)
        requires
            old(self).wf(),
        ensures
            final(self).wf(),
            final(self).benchmark() == old(self).benchmark(),
            final(self).metrics() == old(self).metrics().insert_order_if_absent(
                OrderRecord::from_spec(order),
            ),
    {
        let _ = self.store.insert_order_if_absent(OrderRecord::from(order));
    }

    /// Records the trade, unless a trade with its id is already recorded:
    /// then nothing changes.
    pub fn collect_transaction(&mut self, transaction: &Transaction)
        requires
            old(self).wf(),
        ensures
            final(self).wf(),
            final(self).benchmark() == old(self).benchmark(),
            final(self).metrics() == old(self).metrics().insert_transaction_if_absent(
                TransactionRecord::from_spec(transaction),
            ),
    {
        let _ = self.store.insert_transaction_if_absent(TransactionRecord::from(transaction));
    }

    /// A copy of everything gathered so far, with the benchmark basket.
    pub fn get_snapshot(&self) -> (snapshot: Snapshot)
        requires
            self.wf(),
        ensures
            snapshot.metrics() == self.metrics(),
            snapshot.benchmark_instruments.slots() == self.benchmark(),
            snapshot.benchmark_instruments.wf(),
            snapshot.accounts.wf(),
    {
        let mut snapshot = self.store.snapshot();
        snapshot.benchmark_instruments = self.benchmark_instruments.clone();
        proof {
            let from = self.benchmark_instruments.slots();
            let to = snapshot.benchmark_instruments.slots();
            assert forall|i: int| 0 <= i < from.len() implies from[i] == to[i] by {
                assert(to[i].name == from[i].name);
                assert(cloned::<i64>(from[i].value, to[i].value));
            }
            assert(to =~= from);
        }
        snapshot
    }
}

/// The handle by which the aggregator is reached.
pub struct Analyser(pub AnalyserInner);

impl Analyser {
    /// An aggregator for the given benchmark basket, with nothing gathered.
    pub fn new(benchmark_instruments: BenchmarkSpec) -> (analyser: Self)
        requires
            benchmark_instruments.wf(),
        ensures
            analyser.0.wf(),
            analyser.0.benchmark() == benchmark_instruments.slots(),
            analyser.0.metrics() == Metrics::empty(),
    {
        Analyser(AnalyserInner { benchmark_instruments, store: MetricsStore::new() })
    }
}

} // verus!

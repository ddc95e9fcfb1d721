//! The state container: the two daily series, the account and position
//! histories, and the deduplicated orders and trades.

use crate::analysers::Snapshot;
use crate::ledger::Ledger;
use crate::metrics::Metrics;
use crate::models::{AccountRecord, Amount, OrderRecord, PositionRecord, TransactionRecord};
use crate::table::{lemma_same_sequences, NameTable, Named};
use std::collections::HashMap;
use vstd::prelude::*;

verus! {

broadcast use vstd::std_specs::hash::group_hash_axioms;

/// A map of lists read as a map of sequences.
pub open spec fn batches_as_sequences(batches: Map<i64, Vec<PositionRecord>>) -> Map<
    i64,
    Seq<PositionRecord>,
> {
    batches.map_values(|batch: Vec<PositionRecord>| batch@)
}

/// All aggregated state. Every change goes through the operations below, each
/// of which carries the state from one valid value to the next.
pub struct MetricsStore {
    portfolio: Vec<Amount>,
    benchmark: Vec<Amount>,
    accounts: NameTable<Vec<AccountRecord>>,
    positions: HashMap<i64, Vec<PositionRecord>>,
    orders: Ledger<OrderRecord>,
    transactions: Ledger<TransactionRecord>,
}

impl MetricsStore {
    /// What the store holds.
    pub closed spec fn view(&self) -> Metrics {
        Metrics {
            portfolio: self.portfolio@,
            benchmark: self.benchmark@,
            accounts: self.accounts.sequences(),
            positions: batches_as_sequences(self.positions@),
            orders: self.orders.records(),
            transactions: self.transactions.records(),
        }
    }

    /// The store's invariant: its parts are valid and the two daily series
    /// are equally long.
    pub closed spec fn wf(&self) -> bool {
        &&& self.portfolio@.len() == self.benchmark@.len()
        &&& self.accounts.wf()
        &&& self.orders.wf()
        &&& self.transactions.wf()
    }

    /// A valid store holds a state in which the series are equally long and
    /// no id is recorded twice.
    pub proof fn lemma_valid_state(&self)
        requires
            self.wf(),
        ensures
            self@.inv(),
    {
    }

    /// The store that holds nothing.
    pub fn new() -> (store: Self)
        ensures
            store.wf(),
            store@ == Metrics::empty(),
    {
        let store = MetricsStore {
            portfolio: Vec::new(),
            benchmark: Vec::new(),
            accounts: NameTable::new(),
            positions: HashMap::new(),
            orders: Ledger::new(),
            transactions: Ledger::new(),
        };
        assert(store@.accounts =~= Metrics::empty().accounts);
        assert(store@.positions =~= Metrics::empty().positions);
        store
    }

    /// Appends one value to each daily series.
    pub fn append_daily(&mut self, portfolio_value: Amount, benchmark_value: Amount)
        requires
            old(self).wf(),
        ensures
            final(self).wf(),
            final(self)@ == old(self)@.append_daily(portfolio_value, benchmark_value),
    {
        self.portfolio.push(portfolio_value);
        self.benchmark.push(benchmark_value);
    }

    /// Appends `record` to the history of the account `name`, which begins
    /// with this record where the name is new.
    pub fn upsert_account_record(&mut self, name: String, record: AccountRecord)
        requires
            old(self).wf(),
        ensures
            final(self).wf(),
            final(self)@ == old(self)@.upsert_account_record(name@, record),
    {
        self.accounts.append(name, record);
    }

    /// Puts `records` under `timestamp`, in place of any list that stood there.
    pub fn replace_position_batch(&mut self, timestamp: i64, records: Vec<PositionRecord>)
        requires
            old(self).wf(),
        ensures
            final(self).wf(),
            final(self)@ == old(self)@.replace_position_batch(timestamp, records@),
    {
        self.positions.insert(timestamp, records);
        assert(batches_as_sequences(self.positions@) =~= batches_as_sequences(
            old(self).positions@,
        ).insert(timestamp, records@));
    }

    /// Records `record` unless an order with its id is already recorded, and
    /// tells whether it was recorded now.
    pub fn insert_order_if_absent(&mut self, record: OrderRecord) -> (inserted: bool)
        requires
            old(self).wf(),
        ensures
            final(self).wf(),
            inserted == !old(self)@.has_order(record.id),
            final(self)@ == old(self)@.insert_order_if_absent(record),
    {
        self.orders.insert_if_absent(record)
    }

    /// Records `record` unless a trade with its id is already recorded, and
    /// tells whether it was recorded now.
    pub fn insert_transaction_if_absent(&mut self, record: TransactionRecord) -> (inserted: bool)
        requires
            old(self).wf(),
        ensures
            final(self).wf(),
            inserted == !old(self)@.has_transaction(record.id),
            final(self)@ == old(self)@.insert_transaction_if_absent(record),
    {
        self.transactions.insert_if_absent(record)
    }

    /// The number of recorded orders.
    pub fn order_count(&self) -> (n: usize)
        ensures
            n == self@.orders.len(),
    {
        self.orders.len()
    }

    /// The number of recorded trades.
    pub fn transaction_count(&self) -> (n: usize)
        ensures
            n == self@.transactions.len(),
    {
        self.transactions.len()
    }

    /// A copy of everything the store holds, owned by the caller and
    /// untouched by what the store does afterwards. The copy names no
    /// benchmark instruments.
    pub fn snapshot(&self) -> (snapshot: Snapshot)
        requires
            self.wf(),
        ensures
            snapshot.metrics() == self@,
            snapshot.benchmark_instruments.wf(),
            snapshot.benchmark_instruments.slots() == Seq::<Named<i64>>::empty(),
            snapshot.accounts.wf(),
    {
        let accounts = self.accounts.clone();
        let orders = self.orders.as_vec().clone();
        let transactions = self.transactions.as_vec().clone();
        proof {
            assert forall|i: int| 0 <= i < self.accounts.slots().len() implies self.accounts.slots()[i].name@
                == accounts.slots()[i].name@ && self.accounts.slots()[i].value@
                == accounts.slots()[i].value@ by {
                let from = self.accounts.slots()[i].value;
                let to = accounts.slots()[i].value;
                assert(accounts.slots()[i].name == self.accounts.slots()[i].name);
                assert(cloned::<Vec<AccountRecord>>(from, to));
                assert(from@ =~= to@);
            }
            lemma_same_sequences(self.accounts.slots(), accounts.slots());
            assert(orders@ =~= self.orders.records());
            assert(transactions@ =~= self.transactions.records());
        }
        let portfolio_net_value = self.portfolio.clone();
        let benchmark_net_value = self.benchmark.clone();
        proof {
            assert(portfolio_net_value@ =~= self.portfolio@);
            assert(benchmark_net_value@ =~= self.benchmark@);
        }
        Snapshot {
            benchmark_instruments: NameTable::new(),
            portfolio_net_value,
            benchmark_net_value,
            accounts,
            positions: self.positions.clone(),
            orders,
            transactions,
        }
    }
}

} // verus!

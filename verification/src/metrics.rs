//! The aggregated state as a mathematical value, and what each operation
//! makes of it. The executable store and the snapshot are stated against this.

use crate::live::{Account, Moment};
use crate::models::{
    identities, AccountRecord, Amount, OrderRecord, PositionRecord, TransactionRecord,
};
use crate::table::with_appended;
use vstd::prelude::*;
use vstd::std_specs::convert::FromSpec;

verus! {

/// Everything the aggregator has gathered up to some point.
pub struct Metrics {
    /// Portfolio net value, one entry per collection tick.
    pub portfolio: Seq<Amount>,
    /// Benchmark net value, one entry per collection tick.
    pub benchmark: Seq<Amount>,
    /// For each account name, its records in the order in which they came.
    pub accounts: Map<Seq<char>, Seq<AccountRecord>>,
    /// For each tick's timestamp, the position records taken at that tick.
    pub positions: Map<i64, Seq<PositionRecord>>,
    /// The recorded orders, first recorded first.
    pub orders: Seq<OrderRecord>,
    /// The recorded trades, first recorded first.
    pub transactions: Seq<TransactionRecord>,
}

/// The history map after each of `accounts` has been recorded at `now`, in order.
pub open spec fn with_accounts_recorded(
    history: Map<Seq<char>, Seq<AccountRecord>>,
    accounts: Seq<Account>,
    now: Moment,
) -> Map<Seq<char>, Seq<AccountRecord>>
    decreases accounts.len(),
{
    if accounts.len() == 0 {
        history
    } else {
        let account = accounts.last();
        with_appended(
            with_accounts_recorded(history, accounts.drop_last(), now),
            account.name@,
            AccountRecord::from_spec((&account, &now)),
        )
    }
}

/// The records of one account's positions at `now`, in the account's order.
pub open spec fn positions_of(account: Account, now: Moment) -> Seq<PositionRecord> {
    Seq::new(
        account.positions@.len(),
        |i: int| PositionRecord::from_spec((account.id, &account.positions@[i], &now)),
    )
}

/// The position records of all of `accounts` at `now`: account after account.
pub open spec fn position_batch(accounts: Seq<Account>, now: Moment) -> Seq<PositionRecord>
    decreases accounts.len(),
{
    if accounts.len() == 0 {
        Seq::<PositionRecord>::empty()
    } else {
        position_batch(accounts.drop_last(), now) + positions_of(accounts.last(), now)
    }
}

impl Metrics {
    /// Nothing gathered yet.
    pub open spec fn empty() -> Metrics {
        Metrics {
            portfolio: Seq::empty(),
            benchmark: Seq::empty(),
            accounts: Map::empty(),
            positions: Map::empty(),
            orders: Seq::empty(),
            transactions: Seq::empty(),
        }
    }

    /// What holds of every state that the operations reach: the two daily
    /// series are equally long, and no id is recorded twice.
    pub open spec fn inv(self) -> bool {
        &&& self.portfolio.len() == self.benchmark.len()
        &&& identities(self.orders).no_duplicates()
        &&& identities(self.transactions).no_duplicates()
    }

    /// An order with this id is recorded.
    pub open spec fn has_order(self, id: u128) -> bool {
        identities(self.orders).contains(id)
    }

    /// A trade with this id is recorded.
    pub open spec fn has_transaction(self, id: u128) -> bool {
        identities(self.transactions).contains(id)
    }

    /// One value more at the end of each daily series.
    pub open spec fn append_daily(self, portfolio_value: Amount, benchmark_value: Amount) -> Metrics {
        Metrics {
            portfolio: self.portfolio.push(portfolio_value),
            benchmark: self.benchmark.push(benchmark_value),
            ..self
        }
    }

    /// One record more at the end of the history of `name`.
    pub open spec fn upsert_account_record(self, name: Seq<char>, record: AccountRecord) -> Metrics {
        Metrics { accounts: with_appended(self.accounts, name, record), ..self }
    }

    /// `records` under `timestamp`, in place of whatever was there.
    pub open spec fn replace_position_batch(
        self,
        timestamp: i64,
        records: Seq<PositionRecord>,
    ) -> Metrics {
        Metrics { positions: self.positions.insert(timestamp, records), ..self }
    }

    /// `record` at the end of the orders unless its id is already recorded.
    pub open spec fn insert_order_if_absent(self, record: OrderRecord) -> Metrics {
        if self.has_order(record.id) {
            self
        } else {
            Metrics { orders: self.orders.push(record), ..self }
        }
    }

    /// `record` at the end of the trades unless its id is already recorded.
    pub open spec fn insert_transaction_if_absent(self, record: TransactionRecord) -> Metrics {
        if self.has_transaction(record.id) {
            self
        } else {
            Metrics { transactions: self.transactions.push(record), ..self }
        }
    }

    /// One collection tick at `now`: a value on each series, a record for each
    /// account, and all positions of all accounts under the tick's timestamp.
    pub open spec fn collect_daily(
        self,
        now: Moment,
        benchmark_value: Amount,
        portfolio_value: Amount,
        accounts: Seq<Account>,
    ) -> Metrics {
        Metrics {
            portfolio: self.portfolio.push(portfolio_value),
            benchmark: self.benchmark.push(benchmark_value),
            accounts: with_accounts_recorded(self.accounts, accounts, now),
            positions: self.positions.insert(now.timestamp, position_batch(accounts, now)),
            ..self
        }
    }
}

} // verus!

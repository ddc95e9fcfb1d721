//! What holds of the gathered state over whole runs of operations.

use crate::ledger::lemma_ids_after_push;
use crate::live::{Account, Moment};
use crate::metrics::{with_accounts_recorded, Metrics};
use crate::models::{
    identities, AccountRecord, Amount, OrderRecord, PositionRecord, TransactionRecord,
};
use crate::plugin::HostEvent;
use vstd::prelude::*;
use vstd::std_specs::convert::FromSpec;

verus! {

/// The state that `events`, delivered in order, make of `start`.
pub open spec fn after_events(start: Metrics, events: Seq<HostEvent>) -> Metrics
    decreases events.len(),
{
    if events.len() == 0 {
        start
    } else {
        events.last().apply(after_events(start, events.drop_last()))
    }
}

/// How many of `events` are daily collections.
pub open spec fn daily_collections(events: Seq<HostEvent>) -> nat
    decreases events.len(),
{
    if events.len() == 0 {
        0
    } else {
        let rest = daily_collections(events.drop_last());
        if events.last() is DailyCollection {
            rest + 1
        } else {
            rest
        }
    }
}

/// The timestamps of the daily collections among `events`.
pub open spec fn collection_times(events: Seq<HostEvent>) -> Set<i64>
    decreases events.len(),
{
    if events.len() == 0 {
        Set::empty()
    } else {
        let rest = collection_times(events.drop_last());
        match events.last() {
            HostEvent::DailyCollection { now, .. } => rest.insert(now.timestamp),
            _ => rest,
        }
    }
}

/// The ids of the orders among `events`.
pub open spec fn order_ids_in(events: Seq<HostEvent>) -> Set<u128>
    decreases events.len(),
{
    if events.len() == 0 {
        Set::empty()
    } else {
        let rest = order_ids_in(events.drop_last());
        match events.last() {
            HostEvent::OrderCreationPass { order } => rest.insert(order.id),
            _ => rest,
        }
    }
}

/// The ids of the trades among `events`.
pub open spec fn transaction_ids_in(events: Seq<HostEvent>) -> Set<u128>
    decreases events.len(),
{
    if events.len() == 0 {
        Set::empty()
    } else {
        let rest = transaction_ids_in(events.drop_last());
        match events.last() {
            HostEvent::Trade { transaction } => rest.insert(transaction.id),
            _ => rest,
        }
    }
}

/// Every event carries a valid state to a valid state, adds to the daily
/// series exactly when it is a daily collection, adds its id to the recorded
/// ids, and takes nothing away.
pub proof fn lemma_event_step(before: Metrics, event: HostEvent)
    requires
        before.inv(),
    ensures
        event.apply(before).inv(),
        event.apply(before).portfolio.len() == before.portfolio.len() + (if event
            is DailyCollection {
            1nat
        } else {
            0nat
        }),
        identities(event.apply(before).orders).to_set() == (match event {
            HostEvent::OrderCreationPass { order } => identities(before.orders).to_set().insert(
                order.id,
            ),
            _ => identities(before.orders).to_set(),
        }),
        identities(event.apply(before).transactions).to_set() == (match event {
            HostEvent::Trade { transaction } => identities(before.transactions).to_set().insert(
                transaction.id,
            ),
            _ => identities(before.transactions).to_set(),
        }),
        event.apply(before).positions.dom() == (match event {
            HostEvent::DailyCollection { now, .. } => before.positions.dom().insert(now.timestamp),
            _ => before.positions.dom(),
        }),
        before.orders.is_prefix_of(event.apply(before).orders),
        before.transactions.is_prefix_of(event.apply(before).transactions),
        before.portfolio.is_prefix_of(event.apply(before).portfolio),
        before.benchmark.is_prefix_of(event.apply(before).benchmark),
{
    let after = event.apply(before);
    match event {
        HostEvent::OrderCreationPass { order } => {
            let record = OrderRecord::from_spec(&order);
            let ids = identities(before.orders);
            if before.has_order(record.id) {
                assert(ids.to_set().insert(order.id) =~= ids.to_set());
            } else {
                assert(identities(after.orders) =~= ids.push(record.id));
                lemma_ids_after_push(ids, record.id);
            }
        },
        HostEvent::Trade { transaction } => {
            let record = TransactionRecord::from_spec(&transaction);
            let ids = identities(before.transactions);
            if before.has_transaction(record.id) {
                assert(ids.to_set().insert(transaction.id) =~= ids.to_set());
            } else {
                assert(identities(after.transactions) =~= ids.push(record.id));
                lemma_ids_after_push(ids, record.id);
            }
        },
        HostEvent::DailyCollection { now, benchmark_value, portfolio_value, accounts } => {
            assert(after.positions.dom() =~= before.positions.dom().insert(now.timestamp));
        },
    }
}

/// Over any run of events from a valid state: the state stays valid; each
/// daily series has grown by the number of daily collections; the recorded
/// order ids are the earlier ones and those of the orders delivered, and so
/// for the trades; the timestamps that carry a position batch are the earlier
/// ones and those of the daily collections.
pub proof fn lemma_run(start: Metrics, events: Seq<HostEvent>)
    requires
        start.inv(),
    ensures
        after_events(start, events).inv(),
        after_events(start, events).portfolio.len() == start.portfolio.len() + daily_collections(
            events,
        ),
        after_events(start, events).benchmark.len() == start.benchmark.len() + daily_collections(
            events,
        ),
        identities(after_events(start, events).orders).to_set() == identities(
            start.orders,
        ).to_set().union(order_ids_in(events)),
        identities(after_events(start, events).transactions).to_set() == identities(
            start.transactions,
        ).to_set().union(transaction_ids_in(events)),
        after_events(start, events).positions.dom() == start.positions.dom().union(
            collection_times(events),
        ),
        start.orders.is_prefix_of(after_events(start, events).orders),
        start.transactions.is_prefix_of(after_events(start, events).transactions),
        start.portfolio.is_prefix_of(after_events(start, events).portfolio),
        start.benchmark.is_prefix_of(after_events(start, events).benchmark),
    decreases events.len(),
{
    let end = after_events(start, events);
    if events.len() == 0 {
        assert(identities(start.orders).to_set().union(order_ids_in(events)) =~= identities(
            start.orders,
        ).to_set());
        assert(identities(start.transactions).to_set().union(transaction_ids_in(events))
            =~= identities(start.transactions).to_set());
        assert(start.positions.dom().union(collection_times(events)) =~= start.positions.dom());
    } else {
        let before = after_events(start, events.drop_last());
        lemma_run(start, events.drop_last());
        lemma_event_step(before, events.last());
        assert(identities(end.orders).to_set() =~= identities(start.orders).to_set().union(
            order_ids_in(events),
        ));
        assert(identities(end.transactions).to_set() =~= identities(
            start.transactions,
        ).to_set().union(transaction_ids_in(events)));
        assert(end.positions.dom() =~= start.positions.dom().union(collection_times(events)));
    }
}

/// After N daily collections and nothing else, from nothing, each of the two
/// daily series has exactly N entries.
pub proof fn lemma_n_collections_give_n_entries(ticks: Seq<HostEvent>)
    requires
        forall|i: int| 0 <= i < ticks.len() ==> ticks[i] is DailyCollection,
    ensures
        after_events(Metrics::empty(), ticks).portfolio.len() == ticks.len(),
        after_events(Metrics::empty(), ticks).benchmark.len() == ticks.len(),
{
    lemma_all_collections(ticks);
    lemma_run(Metrics::empty(), ticks);
}

/// Where every event is a daily collection, their number is the number of events.
pub proof fn lemma_all_collections(ticks: Seq<HostEvent>)
    requires
        forall|i: int| 0 <= i < ticks.len() ==> ticks[i] is DailyCollection,
    ensures
        daily_collections(ticks) == ticks.len(),
    decreases ticks.len(),
{
    if ticks.len() > 0 {
        lemma_all_collections(ticks.drop_last());
    }
}

/// Recording an order whose id was recorded just before changes nothing,
/// whatever its other fields are.
pub proof fn lemma_same_order_twice(before: Metrics, first: OrderRecord, second: OrderRecord)
    requires
        first.id == second.id,
    ensures
        before.insert_order_if_absent(first).insert_order_if_absent(second)
            == before.insert_order_if_absent(first),
{
    let once = before.insert_order_if_absent(first);
    if before.has_order(first.id) {
    } else {
        let ids = identities(once.orders);
        assert(ids[before.orders.len() as int] == first.id);
    }
}

/// Recording a trade whose id was recorded just before changes nothing.
pub proof fn lemma_same_transaction_twice(
    before: Metrics,
    first: TransactionRecord,
    second: TransactionRecord,
)
    requires
        first.id == second.id,
    ensures
        before.insert_transaction_if_absent(first).insert_transaction_if_absent(second)
            == before.insert_transaction_if_absent(first),
{
    let once = before.insert_transaction_if_absent(first);
    if before.has_transaction(first.id) {
    } else {
        let ids = identities(once.transactions);
        assert(ids[before.transactions.len() as int] == first.id);
    }
}

/// After any run of events from nothing, the number of recorded orders is the
/// number of distinct order ids delivered, and the number of recorded trades
/// is the number of distinct trade ids delivered.
pub proof fn lemma_counts_are_distinct_ids(events: Seq<HostEvent>)
    ensures
        after_events(Metrics::empty(), events).orders.len() == order_ids_in(events).len(),
        after_events(Metrics::empty(), events).transactions.len() == transaction_ids_in(
            events,
        ).len(),
{
    let end = after_events(Metrics::empty(), events);
    lemma_run(Metrics::empty(), events);
    identities(end.orders).unique_seq_to_set();
    identities(end.transactions).unique_seq_to_set();
    assert(identities(Metrics::empty().orders).to_set() =~= Set::<u128>::empty());
    assert(identities(Metrics::empty().transactions).to_set() =~= Set::<u128>::empty());
    assert(Set::<u128>::empty().union(order_ids_in(events)) =~= order_ids_in(events));
    assert(Set::<u128>::empty().union(transaction_ids_in(events)) =~= transaction_ids_in(events));
}

/// The state after the records of `entries`, each appended to the history of
/// the account it names, in order.
pub open spec fn after_account_records(
    start: Metrics,
    entries: Seq<(Seq<char>, AccountRecord)>,
) -> Metrics
    decreases entries.len(),
{
    if entries.len() == 0 {
        start
    } else {
        after_account_records(start, entries.drop_last()).upsert_account_record(
            entries.last().0,
            entries.last().1,
        )
    }
}

/// The records among `entries` that name the account `name`, in order.
pub open spec fn records_for(entries: Seq<(Seq<char>, AccountRecord)>, name: Seq<char>) -> Seq<
    AccountRecord,
>
    decreases entries.len(),
{
    if entries.len() == 0 {
        Seq::empty()
    } else {
        let rest = records_for(entries.drop_last(), name);
        if entries.last().0 == name {
            rest.push(entries.last().1)
        } else {
            rest
        }
    }
}

/// The history of `name` in `metrics`: empty where the name is not known.
pub open spec fn history_of(metrics: Metrics, name: Seq<char>) -> Seq<AccountRecord> {
    if metrics.accounts.contains_key(name) {
        metrics.accounts[name]
    } else {
        Seq::empty()
    }
}

/// After any run of account records, the history of each account is what it
/// was, followed by the records appended for that account, in the order in
/// which they were appended; and an account is known exactly if it was known
/// or a record was appended for it.
pub proof fn lemma_history_is_append_order(
    start: Metrics,
    entries: Seq<(Seq<char>, AccountRecord)>,
    name: Seq<char>,
)
    ensures
        history_of(after_account_records(start, entries), name) == history_of(start, name)
            + records_for(entries, name),
        after_account_records(start, entries).accounts.contains_key(name) <==> (
        start.accounts.contains_key(name) || records_for(entries, name).len() > 0),
    decreases entries.len(),
{
    if entries.len() == 0 {
        assert(history_of(start, name) + records_for(entries, name) =~= history_of(start, name));
    } else {
        lemma_history_is_append_order(start, entries.drop_last(), name);
        let before = after_account_records(start, entries.drop_last());
        let earlier = records_for(entries.drop_last(), name);
        if entries.last().0 == name {
            assert((history_of(start, name) + earlier).push(entries.last().1) =~= history_of(
                start,
                name,
            ) + earlier.push(entries.last().1));
        }
    }
}

/// After K records appended for one account that was not known before, that
/// account's history is exactly those K records in order.
pub proof fn lemma_k_records_give_k_entries(
    start: Metrics,
    name: Seq<char>,
    entries: Seq<(Seq<char>, AccountRecord)>,
)
    requires
        !start.accounts.contains_key(name),
        forall|i: int| 0 <= i < entries.len() ==> (#[trigger] entries[i]).0 == name,
    ensures
        history_of(after_account_records(start, entries), name) == entries.map_values(
            |entry: (Seq<char>, AccountRecord)| entry.1,
        ),
        history_of(after_account_records(start, entries), name).len() == entries.len(),
{
    lemma_history_is_append_order(start, entries, name);
    lemma_records_of_one_account(entries, name);
    assert(Seq::<AccountRecord>::empty() + records_for(entries, name) =~= records_for(
        entries,
        name,
    ));
}

/// Where every entry names `name`, the records for `name` are all the records.
pub proof fn lemma_records_of_one_account(entries: Seq<(Seq<char>, AccountRecord)>, name: Seq<char>)
    requires
        forall|i: int| 0 <= i < entries.len() ==> (#[trigger] entries[i]).0 == name,
    ensures
        records_for(entries, name) == entries.map_values(
            |entry: (Seq<char>, AccountRecord)| entry.1,
        ),
    decreases entries.len(),
{
    let all = entries.map_values(|entry: (Seq<char>, AccountRecord)| entry.1);
    if entries.len() == 0 {
        assert(records_for(entries, name) =~= all);
    } else {
        lemma_records_of_one_account(entries.drop_last(), name);
        assert(entries.last() == entries[entries.len() - 1]);
        assert(records_for(entries, name) =~= all);
    }
}

/// Two batches stored under one timestamp leave the second alone: the state
/// is as if the first had never been stored.
pub proof fn lemma_position_batch_overwrites(
    before: Metrics,
    timestamp: i64,
    first: Seq<PositionRecord>,
    second: Seq<PositionRecord>,
)
    ensures
        before.replace_position_batch(timestamp, first).replace_position_batch(timestamp, second)
            == before.replace_position_batch(timestamp, second),
        before.replace_position_batch(timestamp, first).replace_position_batch(
            timestamp,
            second,
        ).positions[timestamp] == second,
{
    let twice = before.replace_position_batch(timestamp, first).replace_position_batch(
        timestamp,
        second,
    );
    let once = before.replace_position_batch(timestamp, second);
    assert(twice.positions =~= once.positions);
}

/// The account records that a daily collection at `now` appends: one for
/// each of `accounts`, under the account's name, in order.
pub open spec fn collection_entries(accounts: Seq<Account>, now: Moment) -> Seq<
    (Seq<char>, AccountRecord),
> {
    Seq::new(
        accounts.len(),
        |i: int| (accounts[i].name@, AccountRecord::from_spec((&accounts[i], &now))),
    )
}

/// A daily collection leaves the account histories as appending its
/// entries one by one does. The history of each account after the collection
/// is therefore what it was, followed by the records of the accounts of that
/// name, in order.
pub proof fn lemma_collection_appends_account_records(
    before: Metrics,
    now: Moment,
    benchmark_value: Amount,
    portfolio_value: Amount,
    accounts: Seq<Account>,
    name: Seq<char>,
)
    ensures
        before.collect_daily(now, benchmark_value, portfolio_value, accounts).accounts
            == after_account_records(before, collection_entries(accounts, now)).accounts,
        history_of(before.collect_daily(now, benchmark_value, portfolio_value, accounts), name)
            == history_of(before, name) + records_for(collection_entries(accounts, now), name),
{
    lemma_recorded_accounts(before, now, accounts);
    lemma_history_is_append_order(before, collection_entries(accounts, now), name);
}

/// Recording accounts one after the other is appending their entries in order.
pub proof fn lemma_recorded_accounts(before: Metrics, now: Moment, accounts: Seq<Account>)
    ensures
        with_accounts_recorded(before.accounts, accounts, now) == after_account_records(
            before,
            collection_entries(accounts, now),
        ).accounts,
    decreases accounts.len(),
{
    let entries = collection_entries(accounts, now);
    if accounts.len() > 0 {
        lemma_recorded_accounts(before, now, accounts.drop_last());
        assert(entries.drop_last() =~= collection_entries(accounts.drop_last(), now));
        assert(entries.last() == (
            accounts.last().name@,
            AccountRecord::from_spec((&accounts.last(), &now)),
        ));
    }
}

} // verus!

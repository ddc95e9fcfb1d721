use finangen_analysis::configs::Config;
use finangen_analysis::benchmark::BenchmarkSpec;
use finangen_analysis::ledger::Ledger;
use finangen_analysis::live::{Account, Moment, Order, Transaction};
use finangen_analysis::models::{AccountRecord, Amount, Identified, OrderRecord, PositionRecord};
use finangen_analysis::plugin::{AnalysisPlugin, HostEvent};
use finangen_analysis::store::MetricsStore;
use finangen_analysis::table::NameTable;

fn amount(value: f64) -> Amount {
    Amount::from_bits(value.to_bits())
}

fn value(amount: Amount) -> f64 {
    f64::from_bits(amount.to_bits())
}

fn moment(timestamp: i64) -> Moment {
    Moment { timestamp, text: format!("at {}", timestamp) }
}

fn account_record(name: &str, total_value: f64, timestamp: i64) -> AccountRecord {
    AccountRecord {
        name: name.to_string(),
        id: 1,
        available_cash: amount(0.0),
        frozen_cash: amount(0.0),
        market_value: amount(0.0),
        total_value: amount(total_value),
        transaction_cost: amount(0.0),
        updated_at: format!("at {}", timestamp),
        timestamp,
    }
}

fn position_record(code: &str, timestamp: i64) -> PositionRecord {
    PositionRecord {
        account_id: 1,
        code: code.to_string(),
        direction: "Long".to_string(),
        avg_price: amount(1.0),
        quantity: amount(1.0),
        closable_limited: amount(0.0),
        closable: amount(1.0),
        market_value: amount(1.0),
        transaction_cost: amount(0.0),
        updated_at: format!("at {}", timestamp),
        timestamp,
    }
}

fn order_record(id: u128, tag: &str) -> OrderRecord {
    OrderRecord {
        id,
        account_id: 1,
        secondary_id: String::new(),
        tag: tag.to_string(),
        code: "AAA".to_string(),
        side: "Buy".to_string(),
        position_effect: "Open".to_string(),
        direction: "Long".to_string(),
        frozen_price: amount(0.0),
        init_frozen_cash: amount(0.0),
        avg_price: amount(0.0),
        quantity: amount(0.0),
        filled_quantity: amount(0.0),
        transaction_cost: amount(0.0),
        created_at_ts: 0,
        updated_at_ts: 0,
        created_at: String::new(),
        updated_at: String::new(),
    }
}

fn live_order(id: u128) -> Order {
    Order {
        id,
        account_id: 1,
        secondary_id: String::new(),
        tag: String::new(),
        code: "AAA".to_string(),
        side: "Buy".to_string(),
        position_effect: "Open".to_string(),
        direction: "Long".to_string(),
        frozen_price: amount(0.0),
        init_frozen_cash: amount(0.0),
        avg_price: amount(0.0),
        quantity: amount(0.0),
        filled_quantity: amount(0.0),
        transaction_cost: amount(0.0),
        created_at: moment(1),
        updated_at: moment(2),
    }
}

fn live_trade(id: u128) -> Transaction {
    Transaction {
        id,
        account_id: 1,
        order_id: 2,
        secondary_id: String::new(),
        code: "AAA".to_string(),
        side: "Buy".to_string(),
        position_effect: "Open".to_string(),
        direction: "Long".to_string(),
        price: amount(1.0),
        frozen_price: amount(1.0),
        amount: amount(1.0),
        close_limited_amount: amount(0.0),
        commission: amount(0.0),
        tax: amount(0.0),
        created_at: moment(3),
    }
}

fn live_account(name: &str, total_value: f64) -> Account {
    Account {
        name: name.to_string(),
        id: 1,
        available_cash: amount(0.0),
        frozen_cash: amount(0.0),
        market_value: amount(0.0),
        total_value: amount(total_value),
        transaction_cost: amount(0.0),
        positions: vec![],
    }
}

#[test]
fn append_daily_grows_both_series_by_one() {
    let mut store = MetricsStore::new();
    store.append_daily(amount(1.0), amount(2.0));
    store.append_daily(amount(3.0), amount(4.0));
    let snapshot = store.snapshot();
    let portfolio: Vec<f64> = snapshot.portfolio_net_value.iter().map(|a| value(*a)).collect();
    let benchmark: Vec<f64> = snapshot.benchmark_net_value.iter().map(|a| value(*a)).collect();
    assert_eq!(portfolio, vec![1.0, 3.0]);
    assert_eq!(benchmark, vec![2.0, 4.0]);
}

#[test]
fn append_daily_stores_non_finite_values_as_they_are() {
    let mut store = MetricsStore::new();
    store.append_daily(amount(f64::NAN), amount(f64::INFINITY));
    let snapshot = store.snapshot();
    assert!(value(snapshot.portfolio_net_value[0]).is_nan());
    assert_eq!(value(snapshot.benchmark_net_value[0]), f64::INFINITY);
}

#[test]
fn upsert_account_record_appends_in_order() {
    let mut store = MetricsStore::new();
    store.upsert_account_record("A".to_string(), account_record("A", 1.0, 1));
    store.upsert_account_record("B".to_string(), account_record("B", 9.0, 1));
    store.upsert_account_record("A".to_string(), account_record("A", 2.0, 1));
    store.upsert_account_record("A".to_string(), account_record("A", 3.0, 2));
    let snapshot = store.snapshot();
    let a = snapshot.accounts.get(&"A".to_string()).expect("history of A");
    assert_eq!(a.iter().map(|r| value(r.total_value)).collect::<Vec<f64>>(), vec![1.0, 2.0, 3.0]);
    let b = snapshot.accounts.get(&"B".to_string()).expect("history of B");
    assert_eq!(b.len(), 1);
    assert_eq!(snapshot.accounts.len(), 2);
}

#[test]
fn replace_position_batch_overwrites() {
    let mut store = MetricsStore::new();
    store.replace_position_batch(5, vec![position_record("AAA", 5), position_record("BBB", 5)]);
    store.replace_position_batch(6, vec![position_record("DDD", 6)]);
    store.replace_position_batch(5, vec![position_record("CCC", 5)]);
    let snapshot = store.snapshot();
    assert_eq!(snapshot.positions.len(), 2);
    let at5 = snapshot.positions.get(&5).expect("batch at 5");
    assert_eq!(at5.len(), 1);
    assert_eq!(at5[0].code, "CCC");
    let at6 = snapshot.positions.get(&6).expect("batch at 6");
    assert_eq!(at6[0].code, "DDD");
}

#[test]
fn insert_order_if_absent_tells_whether_it_inserted() {
    let mut store = MetricsStore::new();
    assert_eq!(store.order_count(), 0);
    assert!(store.insert_order_if_absent(order_record(1, "first")));
    assert_eq!(store.order_count(), 1);
    assert!(!store.insert_order_if_absent(order_record(1, "second")));
    assert_eq!(store.order_count(), 1);
    assert!(store.insert_order_if_absent(order_record(2, "third")));
    assert_eq!(store.order_count(), 2);
    let snapshot = store.snapshot();
    assert_eq!(snapshot.orders[0].tag, "first");
    assert_eq!(snapshot.orders[1].tag, "third");
}

#[test]
fn ledger_counts_distinct_ids() {
    let mut ledger: Ledger<OrderRecord> = Ledger::new();
    assert_eq!(ledger.len(), 0);
    let mut accepted = Vec::new();
    for id in [5u128, 5, 6, 7, 6, 5, u128::MAX, 0, u128::MAX] {
        accepted.push(ledger.insert_if_absent(order_record(id, "x")));
    }
    assert_eq!(accepted, vec![true, false, true, true, false, false, true, true, false]);
    assert_eq!(ledger.len(), 5);
    let ids: Vec<u128> = ledger.as_vec().iter().map(|r| r.id()).collect();
    assert_eq!(ids, vec![5, 6, 7, u128::MAX, 0]);
}

#[test]
fn name_table_insert_overwrites_in_place() {
    let mut table: NameTable<i64> = NameTable::new();
    table.insert("X".to_string(), 1);
    table.insert("Y".to_string(), 2);
    table.insert("X".to_string(), 3);
    assert_eq!(table.len(), 2);
    assert_eq!(table.get(&"X".to_string()), Some(&3));
    assert_eq!(table.get(&"Y".to_string()), Some(&2));
    assert_eq!(table.get(&"Z".to_string()), None);
    assert_eq!(table.find(&"X".to_string()), Some(0));
    assert_eq!(table.find(&"Y".to_string()), Some(1));
    assert_eq!(table.find(&"".to_string()), None);
    assert_eq!(table.slot(0).name, "X");
    assert_eq!(table.slot(0).value, 3);
    let copy = table.clone();
    table.insert("Y".to_string(), 20);
    assert_eq!(copy.get(&"Y".to_string()), Some(&2));
}

#[test]
fn name_table_append_builds_lists() {
    let mut table: NameTable<Vec<u8>> = NameTable::new();
    table.append("a".to_string(), 1);
    table.append("b".to_string(), 2);
    table.append("a".to_string(), 3);
    assert_eq!(table.get(&"a".to_string()), Some(&vec![1, 3]));
    assert_eq!(table.get(&"b".to_string()), Some(&vec![2]));
    assert_eq!(table.len(), 2);
}

#[test]
fn config_without_schedule_runs_at_midnight() {
    let config = Config { benchmark: BenchmarkSpec::new(), daily_collect_cron_expr: None };
    assert_eq!(config.cron_expr(), "0 0 0 * * *");
}

#[test]
fn config_with_schedule_keeps_it() {
    let config = Config {
        benchmark: BenchmarkSpec::new(),
        daily_collect_cron_expr: Some("0 30 15 * * *".to_string()),
    };
    assert_eq!(config.cron_expr(), "0 30 15 * * *");
}

#[test]
fn plugin_not_installed_leaves_no_snapshot() {
    let mut plugin = AnalysisPlugin::new();
    assert_eq!(plugin.name(), "finangen_analysis_plugin");
    assert!(plugin.analyser().is_none());
    assert!(plugin.uninstall().is_none());
    plugin.dispatch(HostEvent::OrderCreationPass { order: live_order(1) });
    assert!(plugin.uninstall().is_none());
}

#[test]
fn plugin_gathers_what_it_is_handed() {
    let mut plugin = AnalysisPlugin::new();
    let mut benchmark = BenchmarkSpec::new();
    benchmark.insert("AAA".to_string(), 1);
    let cron = plugin.install(Config { benchmark, daily_collect_cron_expr: None });
    assert_eq!(cron, "0 0 0 * * *");
    assert!(plugin.analyser().is_some());
    plugin.dispatch(HostEvent::OrderCreationPass { order: live_order(1) });
    plugin.dispatch(HostEvent::OrderCreationPass { order: live_order(1) });
    plugin.dispatch(HostEvent::Trade { transaction: live_trade(8) });
    plugin.dispatch(HostEvent::DailyCollection {
        now: moment(10),
        benchmark_value: amount(100.0),
        portfolio_value: amount(500.0),
        accounts: vec![live_account("main", 500.0)],
    });
    let snapshot = plugin.uninstall().expect("an installed plugin leaves a snapshot");
    assert_eq!(snapshot.orders.len(), 1);
    assert_eq!(snapshot.transactions.len(), 1);
    assert_eq!(snapshot.transactions[0].id, 8);
    assert_eq!(value(snapshot.portfolio_net_value[0]), 500.0);
    assert_eq!(value(snapshot.benchmark_net_value[0]), 100.0);
    assert_eq!(snapshot.accounts.get(&"main".to_string()).map(|h| h.len()), Some(1));
    assert_eq!(snapshot.positions.get(&10).map(|b| b.len()), Some(0));
    assert_eq!(snapshot.benchmark_instruments.get(&"AAA".to_string()), Some(&1));
}

#[test]
fn installing_again_starts_afresh() {
    let mut plugin = AnalysisPlugin::new();
    let _ = plugin.install(Config { benchmark: BenchmarkSpec::new(), daily_collect_cron_expr: None });
    plugin.dispatch(HostEvent::OrderCreationPass { order: live_order(1) });
    let cron = plugin.install(Config {
        benchmark: BenchmarkSpec::new(),
        daily_collect_cron_expr: Some("* * * * * *".to_string()),
    });
    assert_eq!(cron, "* * * * * *");
    let snapshot = plugin.uninstall().expect("snapshot");
    assert!(snapshot.orders.is_empty());
}

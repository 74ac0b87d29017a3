use unified_trading::execution_manager::OrderSide;
use unified_trading::idempotency::IdempotencyStore;
use unified_trading::journal::JournalEntry;
use unified_trading::order_state_machine::FillTotals;
use unified_trading::order_tracker::{FillFigures, OrderStatus, OrderTracker};
use unified_trading::portfolio::{FillValues, PortfolioManager};
use unified_trading::quantity::Real;
use unified_trading::recovery::{
    compare_with_broker, mark_recovered, names_missing, parse_order_data, plan_recovery,
    rehydrate_order, retry_command, take_over_order, take_over_position, OpenOrder, RecoveryStep,
};
use unified_trading::str_map::StrMap;

fn num(x: f64) -> Real {
    Real::from_bits(x.to_bits())
}

fn order(symbol: &str, data: &str) -> JournalEntry {
    JournalEntry::Order { symbol: symbol.to_string(), timestamp_ns: 1, data: data.to_string() }
}

fn known(names: &[&str]) -> StrMap<()> {
    let mut m = StrMap::new();
    for n in names {
        m.insert(n.to_string(), ());
    }
    m
}

#[test]
fn order_data_is_read_field_by_field() {
    let d = parse_order_data("intent_id=5,order_id=o,side=Buy,qty=2.5,request_id=7,status=Pending");
    assert_eq!(d.intent_id, 5);
    assert_eq!(d.order_id, "o");
    assert_eq!(d.side, "Buy");
    assert_eq!(d.qty_text, Some("2.5".to_string()));
    assert_eq!(d.status, "Pending");
    let d = parse_order_data("intent_id=x");
    assert_eq!(d.intent_id, 0);
    assert_eq!(d.qty_text, None);
}

#[test]
fn pending_orders_are_retried_and_submitted_ones_marked() {
    let entries = vec![
        order("A", "intent_id=1,order_id=o1,side=Buy,qty=1,request_id=7,status=Pending"),
        order(
            "A",
            "intent_id=2,order_id=o2,side=Sell,qty=1,request_id=8,status=Submitted,execution_id=e",
        ),
        order("A", "intent_id=4,order_id=o4,side=Buy,qty=1,request_id=9,status=Pending"),
        order(
            "A",
            "intent_id=4,order_id=o4,side=Buy,qty=1,request_id=9,status=Submitted,execution_id=f",
        ),
        order("X", "intent_id=3,order_id=o3,side=Buy,qty=1,request_id=9,status=Pending"),
        JournalEntry::Fill { symbol: "A".to_string(), timestamp_ns: 2, data: String::new() },
    ];
    let plan = plan_recovery(&entries, &known(&["A"]));
    assert_eq!(plan.replayed_orders, 5);
    assert_eq!(plan.replayed_fills, 1);
    let retried: Vec<u64> = plan
        .steps
        .iter()
        .filter_map(|s| match s {
            RecoveryStep::Retry { intent_id, .. } => Some(*intent_id),
            _ => None,
        })
        .collect();
    let marked: Vec<u64> = plan
        .steps
        .iter()
        .filter_map(|s| match s {
            RecoveryStep::Mark { intent_id, .. } => Some(*intent_id),
            _ => None,
        })
        .collect();
    assert_eq!(retried, vec![1]);
    assert_eq!(marked, vec![2, 4]);
}

#[test]
fn a_retried_order_keeps_its_id() {
    let c = retry_command("A", "o1", OrderSide::Sell, num(2.0), 9);
    assert_eq!(c.order_id, "o1");
    assert_eq!(c.side, OrderSide::Sell);
    assert_eq!(c.correlation_id, "9");
    assert_eq!(c.trace_id, 9);
}

#[test]
fn what_was_recovered_is_not_ordered_again() {
    let mut store = IdempotencyStore::new();
    let line = mark_recovered(&mut store, 4, None);
    assert_eq!(line, Some("intent-4 recovered".to_string()));
    let line = mark_recovered(&mut store, 5, Some("e5"));
    assert_eq!(line, Some("intent-5 e5".to_string()));
    assert_eq!(store.get_result("intent-4"), Some("recovered".to_string()));
    assert_eq!(store.get_result("intent-5"), Some("e5".to_string()));
}

#[test]
fn open_orders_of_the_broker_are_taken_over() {
    let mut tracker = OrderTracker::new();
    let info = OpenOrder {
        order_id: "b1".to_string(),
        symbol: "A".to_string(),
        side: OrderSide::Buy,
        quantity: num(10.0),
        filled_qty: num(4.0),
    };
    let f = FillFigures {
        totals: FillTotals { total_filled_qty: num(4.0), avg_fill_price: num(0.0) },
        qty_text: "4.0".to_string(),
        price_text: "0.0".to_string(),
    };
    rehydrate_order(&mut tracker, &info, "b1", &f, 3);
    let o = tracker.get_order("b1").unwrap();
    assert_eq!(o.side, "buy");
    assert!(matches!(o.status, OrderStatus::PartiallyFilled { .. }));
    assert_eq!(tracker.open_orders_count(), 1);
    let id = take_over_order(&mut tracker, &info, &f, 4);
    assert_eq!(id.len(), 36);
    assert_eq!(tracker.get_order(&id).unwrap().correlation_id, "b1");
    assert_eq!(tracker.open_orders_count(), 2);
}

#[test]
fn drift_is_found_both_ways() {
    let v = |names: &[&str]| names.iter().map(|s| s.to_string()).collect::<Vec<String>>();
    let r = compare_with_broker(&v(&["A", "B"]), &v(&["B", "C"]), 1, 2);
    assert_eq!(r.broker_only, v(&["A"]));
    assert_eq!(r.local_only, v(&["C"]));
    assert!(r.open_counts_differ);
    assert_eq!(names_missing(&v(&["A"]), &v(&["A"])), v(&[]));
}

#[test]
fn positions_of_the_broker_are_taken_over() {
    let mut pm = PortfolioManager::new(num(1000.0), num(0.001));
    let values = FillValues {
        avg_entry_price: num(10.0),
        realized_pnl: num(0.0),
        net_position: num(-3.0),
        traded: num(30.0),
    };
    take_over_position(&mut pm, "A", num(-3.0), num(10.0), values, num(1000.0));
    let p = pm.get_position("A").unwrap();
    assert_eq!((p.net_position, p.avg_entry_price), (num(-3.0), num(10.0)));
    assert_eq!((p.total_sold, p.total_bought), (num(30.0), num(0.0)));
}

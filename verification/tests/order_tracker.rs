use unified_trading::clock::wall_time_ns;
use unified_trading::order_lifecycle::{OrderLifecycleEvent, OrderLifecycleEventType};
use unified_trading::order_state_machine::{FillTotals, OrderEvent, OrderState};
use unified_trading::order_tracker::{status_of, FillFigures, OrderStatus, OrderTracker};
use unified_trading::quantity::Real;
use unified_trading::symbol_registry::IdCounters;

fn num(x: f64) -> Real {
    Real::from_bits(x.to_bits())
}

fn float(x: Real) -> f64 {
    f64::from_bits(x.bits)
}

fn figures(t: &OrderTracker, id: &str, qty: f64, price: f64) -> FillFigures {
    let (before, avg) = match t.get_state_machine(id) {
        Some(sm) => (float(sm.metadata().total_filled_qty), float(sm.metadata().avg_fill_price)),
        None => (0.0, 0.0),
    };
    let total = before + qty;
    FillFigures {
        totals: FillTotals {
            total_filled_qty: num(total),
            avg_fill_price: num((avg * before + price * qty) / total),
        },
        qty_text: format!("{:?}", qty),
        price_text: format!("{:?}", price),
    }
}

fn partial_fill(
    t: &mut OrderTracker,
    id: &str,
    qty: f64,
    price: f64,
    ts: u64,
) -> Result<OrderState, String> {
    let f = figures(t, id, qty, price);
    t.partial_fill_order(id, num(qty), num(price), &f, ts)
}

fn full_fill(
    t: &mut OrderTracker,
    id: &str,
    qty: f64,
    price: f64,
    ts: u64,
) -> Result<OrderState, String> {
    let f = figures(t, id, qty, price);
    t.full_fill_order(id, num(qty), num(price), &f, ts)
}

#[test]
fn test_order_tracker_create() {
    let mut tracker = OrderTracker::new();
    let id = tracker.create_order("AAPL", "buy", num(10.0), Some(num(150.0)), "corr-1");
    assert!(!id.is_empty());
    assert_eq!(tracker.open_orders_count(), 0);
    assert!(tracker.is_order_active(&id));
    assert!(!tracker.is_order_terminal(&id));
}

#[test]
fn test_order_tracker_valid_transition_submit() {
    let mut tracker = OrderTracker::new();
    let id = tracker.create_order("AAPL", "buy", num(10.0), None, "corr-1");
    let now = wall_time_ns();
    let result = tracker.submit_order(&id, now);
    assert!(result.is_ok());
    assert_eq!(tracker.open_orders_count(), 1);
    let order = tracker.get_order(&id).unwrap();
    assert!(matches!(order.status, OrderStatus::Submitted));
}

#[test]
fn test_order_tracker_valid_transition_partial_fill() {
    let mut tracker = OrderTracker::new();
    let id = tracker.create_order("AAPL", "buy", num(10.0), None, "corr-1");
    let now = wall_time_ns();
    tracker.submit_order(&id, now).unwrap();
    let result = partial_fill(&mut tracker, &id, 5.0, 150.0, now + 1_000_000);
    assert!(result.is_ok());
    let order = tracker.get_order(&id).unwrap();
    assert_eq!(order.filled_quantity, num(5.0));
    assert!(matches!(order.status, OrderStatus::PartiallyFilled { .. }));
}

#[test]
fn test_order_tracker_valid_transition_full_fill() {
    let mut tracker = OrderTracker::new();
    let id = tracker.create_order("AAPL", "buy", num(10.0), None, "corr-1");
    let now = wall_time_ns();
    tracker.submit_order(&id, now).unwrap();
    let result = full_fill(&mut tracker, &id, 10.0, 150.0, now + 1_000_000);
    assert!(result.is_ok());
    let order = tracker.get_order(&id).unwrap();
    assert!(matches!(order.status, OrderStatus::Filled));
    assert_eq!(tracker.open_orders_count(), 0);
    assert!(tracker.is_order_terminal(&id));
}

#[test]
fn test_order_tracker_invalid_transition_after_fill() {
    let mut tracker = OrderTracker::new();
    let id = tracker.create_order("AAPL", "buy", num(10.0), None, "corr-1");
    let now = wall_time_ns();
    tracker.submit_order(&id, now).unwrap();
    full_fill(&mut tracker, &id, 10.0, 150.0, now + 1_000_000).unwrap();
    let result = tracker.submit_order(&id, now + 2_000_000);
    assert!(result.is_err());
}

#[test]
fn test_order_tracker_invalid_transition_after_cancel() {
    let mut tracker = OrderTracker::new();
    let id = tracker.create_order("AAPL", "buy", num(10.0), None, "corr-1");
    let now = wall_time_ns();
    tracker.submit_order(&id, now).unwrap();
    tracker.cancel_order(&id, now + 1_000_000).unwrap();
    let result = partial_fill(&mut tracker, &id, 5.0, 150.0, now + 2_000_000);
    assert!(result.is_err());
}

#[test]
fn test_order_tracker_by_symbol() {
    let mut tracker = OrderTracker::new();
    tracker.create_order("AAPL", "buy", num(10.0), None, "corr-1");
    tracker.create_order("AAPL", "sell", num(5.0), None, "corr-2");
    tracker.create_order("MSFT", "buy", num(3.0), None, "corr-3");
    assert_eq!(tracker.get_orders_by_symbol("AAPL").len(), 2);
    assert_eq!(tracker.get_orders_by_symbol("MSFT").len(), 1);
}

#[test]
fn test_order_tracker_state_machine_metadata() {
    let mut tracker = OrderTracker::new();
    let id = tracker.create_order("AAPL", "buy", num(10.0), None, "corr-1");
    let now = wall_time_ns();
    tracker.submit_order(&id, now).unwrap();
    partial_fill(&mut tracker, &id, 5.0, 100.0, now + 1_000_000).unwrap();
    partial_fill(&mut tracker, &id, 5.0, 120.0, now + 2_000_000).unwrap();

    let sm = tracker.get_state_machine(&id).unwrap();
    assert_eq!(sm.metadata().total_filled_qty, num(10.0));
    assert!((float(sm.metadata().avg_fill_price) - 110.0).abs() < 0.01);
    assert_eq!(sm.transition_count(), 3);
}

#[test]
fn ids_are_random_and_well_formed() {
    let mut tracker = OrderTracker::new();
    let a = tracker.create_order("AAPL", "buy", num(1.0), None, "c");
    let b = tracker.create_order("AAPL", "buy", num(1.0), None, "c");
    assert_ne!(a, b);
    for id in [a, b] {
        assert_eq!(id.len(), 36);
        assert!(uuid::Uuid::parse_str(&id).is_ok());
        assert_eq!(&id[14..15], "4");
    }
}

#[test]
fn an_unknown_order_is_reported() {
    let mut tracker = OrderTracker::new();
    assert_eq!(
        tracker.submit_order("nope", 1).unwrap_err(),
        "Order nope not found"
    );
    assert!(tracker.get_order("nope").is_none());
    assert!(!tracker.is_order_active("nope"));
    assert!(!tracker.is_order_terminal("nope"));
}

#[test]
fn fills_go_by_the_quantity_of_the_order() {
    let mut tracker = OrderTracker::new();
    tracker.create_order_with_id("o", "AAPL", "buy", num(10.0), Some(num(2.0)), "c", 1);
    assert!(matches!(
        tracker.fill_event("o", num(10.0)),
        Some(OrderEvent::FullFill { filled_qty, fill_price })
            if filled_qty == num(10.0) && fill_price == num(2.0)
    ));
    assert!(matches!(
        tracker.fill_event("o", num(4.0)),
        Some(OrderEvent::PartialFill { filled_qty, .. }) if filled_qty == num(4.0)
    ));
    assert!(tracker.fill_event("x", num(4.0)).is_none());
    tracker.submit_order("o", 2).unwrap();
    let f = figures(&tracker, "o", 10.0, 2.0);
    tracker.update_fill("o", num(12.0), &f, 3);
    assert!(matches!(tracker.get_order("o").unwrap().status, OrderStatus::Filled));
    tracker.update_status("o", OrderStatus::Cancelled);
    assert!(matches!(tracker.get_order("o").unwrap().status, OrderStatus::Cancelled));
}

#[test]
fn a_status_tells_of_the_state() {
    assert!(matches!(
        status_of(&OrderState::PartiallyFilled, num(3.0), None),
        OrderStatus::PartiallyFilled { filled_qty } if filled_qty == num(3.0)
    ));
    match status_of(&OrderState::Rejected, num(0.0), Some("why".to_string())) {
        OrderStatus::Rejected { reason } => assert_eq!(reason, "why"),
        other => panic!("expected rejected, got {:?}", other),
    }
}

#[test]
fn test_order_lifecycle_event_trace_id() {
    let trace_id = 54321u64;
    let mut ids = IdCounters::new();
    let event = OrderLifecycleEvent::new(
        "exec-123".to_string(),
        "AAPL".to_string(),
        OrderLifecycleEventType::Submitted,
        1000,
        &mut ids,
    )
    .with_trace_id(trace_id);

    assert_eq!(event.trace_id, trace_id);
}

#[test]
fn test_order_lifecycle_event_trace_id_filled() {
    let trace_id = 98765u64;
    let mut ids = IdCounters::new();
    let event = OrderLifecycleEvent::new(
        "exec-456".to_string(),
        "TSLA".to_string(),
        OrderLifecycleEventType::Filled,
        2000,
        &mut ids,
    )
    .with_fill(num(10.0), num(150.0))
    .with_trace_id(trace_id);

    assert_eq!(event.trace_id, trace_id);
    assert_eq!(event.filled_quantity, num(10.0));
    assert_eq!(event.fill_price, num(150.0));
}

#[test]
fn test_order_lifecycle_event_trace_id_default_zero() {
    let mut ids = IdCounters::new();
    let event = OrderLifecycleEvent::new(
        "exec-789".to_string(),
        "MSFT".to_string(),
        OrderLifecycleEventType::Cancelled,
        3000,
        &mut ids,
    );

    assert_eq!(event.trace_id, 0);
}

#[test]
fn test_order_lifecycle_event_is_terminal() {
    let mut ids = IdCounters::new();
    let event = OrderLifecycleEvent::new(
        "exec-001".to_string(),
        "AAPL".to_string(),
        OrderLifecycleEventType::Filled,
        1000,
        &mut ids,
    );
    assert!(event.is_terminal());

    let event = OrderLifecycleEvent::new(
        "exec-002".to_string(),
        "AAPL".to_string(),
        OrderLifecycleEventType::Submitted,
        1000,
        &mut ids,
    );
    assert!(!event.is_terminal());
    assert_eq!(event.event_id, "2");
}

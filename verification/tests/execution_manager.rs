use unified_trading::clock::TestClock;
use unified_trading::config::ValidatorConfig;
use unified_trading::execution_manager::{
    advance, after_attempt, after_breaker, after_rate_limit, check_symbol, order_accepted, order_failed,
    order_side, plan_order, screen, Admission, Attempt, ExecutionManager, ExecutionStep,
    OrderSide, RetryStep, RiskDecision, RiskRequest, StepResult,
};
use unified_trading::idempotency::IdempotencyStore;
use unified_trading::journal::{format_entry, JournalEntry};
use unified_trading::kill_switch::KillSwitch;
use unified_trading::metrics::GlobalMetrics;
use unified_trading::order_lifecycle::{OrderLifecycleEvent, OrderLifecycleEventType};
use unified_trading::order_state_machine::FillTotals;
use unified_trading::order_tracker::{FillFigures, OrderStatus, OrderTracker};
use unified_trading::portfolio::{fill_kind, signed_quantity, FillKind, FillValues, PortfolioManager};
use unified_trading::quantity::Real;
use unified_trading::symbol_registry::{IdCounters, SymbolId};
use unified_trading::validator::RequestValidator;

fn num(x: f64) -> Real {
    Real::from_bits(x.to_bits())
}

fn make_approved_decision() -> RiskDecision {
    RiskDecision {
        request_id: 7,
        approved: true,
        request: RiskRequest {
            symbol_id: SymbolId::from_raw(0),
            intent_id: 1,
            side: 1,
            quantity: num(10.0),
        },
        trace_id: 1,
    }
}

/// A broker that fails a number of times before it takes an order.
struct MockPort {
    transient_failures: u32,
    submits: u32,
}

impl MockPort {
    fn submit(&mut self) -> Attempt {
        self.submits += 1;
        if self.transient_failures > 0 {
            self.transient_failures -= 1;
            Attempt::Transient
        } else {
            Attempt::Accepted
        }
    }
}

/// Runs a decision through all steps, with three attempts and a wait of 100 ms.
fn execute(
    d: &RiskDecision,
    port: &mut MockPort,
    breaker_lets_through: bool,
    ks: &mut KillSwitch<TestClock>,
    store: &mut IdempotencyStore,
    ids: &mut IdCounters,
    metrics: &mut GlobalMetrics,
) -> (Option<OrderLifecycleEvent>, Vec<u64>) {
    let mut waits = Vec::new();
    if screen(d, ks.is_active()) != Admission::AskBreaker {
        return (None, waits);
    }
    if !after_breaker(breaker_lets_through, metrics) {
        return (None, waits);
    }
    let v = RequestValidator::new(ValidatorConfig::default());
    if check_symbol(d, &v, metrics).is_none() || !after_rate_limit(true, metrics) {
        return (None, waits);
    }
    let plan = match plan_order(d, 5, "10", store, ids) {
        Some(p) => p,
        None => return (None, waits),
    };
    let mut attempt = 0;
    loop {
        let outcome = port.submit();
        match after_attempt(attempt, 3, 100, outcome) {
            RetryStep::RetryAfter(ms) => {
                waits.push(ms);
                attempt += 1;
            }
            RetryStep::Done => {
                if outcome == Attempt::Accepted {
                    let s = order_accepted(
                        d,
                        &plan,
                        "exec-1",
                        "10",
                        5,
                        10,
                        30,
                        ks,
                        store,
                        ids,
                        metrics,
                    );
                    return (Some(s.event), waits);
                }
                let _ = order_failed(d, "unavailable", 5, metrics);
                return (None, waits);
            }
        }
    }
}

fn setup() -> (KillSwitch<TestClock>, IdempotencyStore, IdCounters, GlobalMetrics) {
    (
        KillSwitch::with_clock(TestClock::new(1)),
        IdempotencyStore::new(),
        IdCounters::new(),
        GlobalMetrics::new(),
    )
}

#[test]
fn test_execution_manager_processes_approved() {
    let (mut ks, mut store, mut ids, mut metrics) = setup();
    let mut port = MockPort { transient_failures: 0, submits: 0 };
    let d = make_approved_decision();
    let (event, _) = execute(&d, &mut port, true, &mut ks, &mut store, &mut ids, &mut metrics);
    assert!(matches!(event.unwrap().event_type, OrderLifecycleEventType::Submitted));
    assert!(ks.is_order_tracked("exec-1"));
}

#[test]
fn test_execution_manager_rejects_on_killswitch() {
    let (mut ks, mut store, mut ids, mut metrics) = setup();
    ks.activate();
    let mut port = MockPort { transient_failures: 0, submits: 0 };
    let d = make_approved_decision();
    let (event, _) = execute(&d, &mut port, true, &mut ks, &mut store, &mut ids, &mut metrics);
    assert!(event.is_none());
    assert_eq!(port.submits, 0);
}

#[test]
fn test_execution_manager_on_fill() {
    let (mut ks, _, mut ids, mut metrics) = setup();
    let mut tracker = OrderTracker::new();
    let mut portfolio = PortfolioManager::new(num(100_000.0), num(0.001));
    let order_id = tracker.create_order("AAPL", "buy", num(10.0), None, "corr-1");

    let figures = FillFigures {
        totals: FillTotals { total_filled_qty: num(10.0), avg_fill_price: num(150.0) },
        qty_text: "10.0".to_string(),
        price_text: "150.0".to_string(),
    };
    assert_eq!(fill_kind(num(0.0), signed_quantity(num(10.0), true)), FillKind::Adding);
    let values = FillValues {
        avg_entry_price: num(150.0),
        realized_pnl: num(0.0),
        net_position: num(10.0),
        traded: num(1500.0),
    };
    let event = ExecutionManager::on_fill(
        &order_id,
        "AAPL",
        num(10.0),
        num(150.0),
        &figures,
        values,
        num(100_000.0),
        42,
        9,
        &mut tracker,
        &mut portfolio,
        &mut ks,
        &mut ids,
        &mut metrics,
    );
    assert_eq!(metrics.orders_filled.load(), 1);
    assert_eq!(event.trace_id, 42);
    let pos = portfolio.get_position("AAPL").unwrap();
    assert_eq!(pos.net_position, num(10.0));
}

#[test]
fn test_execution_manager_circuit_breaker() {
    let (mut ks, mut store, mut ids, mut metrics) = setup();
    let mut port = MockPort { transient_failures: 0, submits: 0 };
    let d = make_approved_decision();
    execute(&d, &mut port, false, &mut ks, &mut store, &mut ids, &mut metrics);
    assert!(metrics.circuit_breaker_trips.load() > 0);
    assert_eq!(port.submits, 0);
}

#[test]
fn test_execution_manager_retry_transient_then_success() {
    let (mut ks, mut store, mut ids, mut metrics) = setup();
    let mut port = MockPort { transient_failures: 2, submits: 0 };
    let d = make_approved_decision();
    let (event, waits) =
        execute(&d, &mut port, true, &mut ks, &mut store, &mut ids, &mut metrics);
    assert!(matches!(event.unwrap().event_type, OrderLifecycleEventType::Submitted));
    assert_eq!(port.submits, 3);
    assert_eq!(port.transient_failures, 0);
    assert_eq!(metrics.orders_submitted.load(), 1);
    assert_eq!(waits, vec![100, 200]);
}

#[test]
fn test_execution_manager_retry_exhausted() {
    let (mut ks, mut store, mut ids, mut metrics) = setup();
    let mut port = MockPort { transient_failures: 5, submits: 0 };
    let d = make_approved_decision();
    let (event, _) = execute(&d, &mut port, true, &mut ks, &mut store, &mut ids, &mut metrics);
    assert!(event.is_none());
    assert_eq!(port.submits, 3);
    assert!(port.transient_failures > 0);
    assert_eq!(metrics.orders_rejected.load(), 1);
}

#[test]
fn an_intent_is_ordered_once() {
    let (mut ks, mut store, mut ids, mut metrics) = setup();
    let mut port = MockPort { transient_failures: 0, submits: 0 };
    let d = make_approved_decision();
    assert!(execute(&d, &mut port, true, &mut ks, &mut store, &mut ids, &mut metrics).0.is_some());
    assert!(execute(&d, &mut port, true, &mut ks, &mut store, &mut ids, &mut metrics).0.is_none());
    assert_eq!(port.submits, 1);
    assert_eq!(store.get_result("intent-1"), Some("exec-1".to_string()));
}

#[test]
fn a_decision_that_was_refused_goes_no_further() {
    let mut d = make_approved_decision();
    d.approved = false;
    assert_eq!(screen(&d, false), Admission::NotApproved);
}

#[test]
fn a_plan_tells_the_journal_first() {
    let (_, mut store, mut ids, _) = setup();
    let p = plan_order(&make_approved_decision(), 99, "10", &mut store, &mut ids).unwrap();
    assert_eq!(
        format_entry(&p.pending_entry),
        "ORDER|0|99|intent_id=1,order_id=1,side=Buy,qty=10,request_id=7,status=Pending"
    );
    assert_eq!(p.command.correlation_id, "7");
    assert_eq!(p.command.side, OrderSide::Buy);
}

#[test]
fn numbers_stand_for_sides() {
    let sides: Vec<OrderSide> = (0..8).map(order_side).collect();
    for (i, s) in sides.iter().enumerate() {
        assert_eq!(*s == OrderSide::Buy, i == 0 || i == 1 || i == 2 || i == 4);
    }
}

#[test]
fn every_number_is_ordered() {
    let (_, mut store, mut ids, _) = setup();
    for side in 0..8u8 {
        let mut d = make_approved_decision();
        d.request.side = side;
        let p = plan_order(&d, 99, "10", &mut store, &mut ids).unwrap();
        assert_eq!(p.command.side, order_side(side));
    }
}

#[test]
fn a_failed_order_is_noted() {
    let mut metrics = GlobalMetrics::new();
    let e: JournalEntry = order_failed(&make_approved_decision(), "no", 3, &mut metrics);
    assert_eq!(
        format_entry(&e),
        "EVENT|ORDER_FAILED|3|intent_id=1,symbol=0,error=no,status=Failed"
    );
}

#[test]
fn rejections_and_cancellations_are_reported() {
    let (mut ks, _, mut ids, mut metrics) = setup();
    let mut tracker = OrderTracker::new();
    tracker.create_order_with_id("o", "AAPL", "buy", num(1.0), None, "c", 1);
    ks.track_open_order("o");
    let e = ExecutionManager::on_reject("o", "AAPL", "why", 3, 4, &mut ks, &mut ids, &mut metrics);
    assert_eq!(e.raw_status, "rejected: why");
    assert!(!ks.is_order_tracked("o"));
    let e = ExecutionManager::on_cancel(
        "o", "AAPL", 3, 4, &mut tracker, &mut ks, &mut ids, &mut metrics,
    );
    assert_eq!(e.raw_status, "cancelled");
    assert!(matches!(tracker.get_order("o").unwrap().status, OrderStatus::Cancelled));
    assert_eq!(metrics.orders_cancelled.load(), 1);
    assert_eq!(metrics.orders_rejected.load(), 1);
}

#[test]
fn the_journal_is_written_before_the_broker_is_asked() {
    let transient = StepResult::Answered(Attempt::Transient);
    let accepted = StepResult::Answered(Attempt::Accepted);
    let results = [
        StepResult::Passed,
        StepResult::Passed,
        StepResult::Passed,
        StepResult::Passed,
        transient,
        StepResult::Passed,
        accepted,
        StepResult::Passed,
    ];
    let mut step = ExecutionStep::CheckSymbol;
    let mut steps = vec![step];
    for r in results {
        step = advance(step, r, 3, 100);
        steps.push(step);
    }
    assert_eq!(
        steps,
        vec![
            ExecutionStep::CheckSymbol,
            ExecutionStep::TakeToken,
            ExecutionStep::MakePlan,
            ExecutionStep::WritePending,
            ExecutionStep::Submit { attempt: 0 },
            ExecutionStep::Wait { attempt: 0, delay_ms: 100 },
            ExecutionStep::Submit { attempt: 1 },
            ExecutionStep::RecordAccepted,
            ExecutionStep::Done,
        ]
    );
    let submit = ExecutionStep::Submit { attempt: 2 };
    assert_eq!(advance(submit, transient, 3, 100), ExecutionStep::RecordFailed);
    assert_eq!(
        advance(ExecutionStep::TakeToken, StepResult::Refused, 3, 100),
        ExecutionStep::Done
    );
}

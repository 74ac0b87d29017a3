use unified_trading::order_state_machine::{
    create_behavior_for_state, FillTotals, OrderEvent, OrderState, OrderStateMachine,
    TransitionError,
};
use unified_trading::quantity::Real;

fn num(x: f64) -> Real {
    Real::from_bits(x.to_bits())
}

fn float(x: Real) -> f64 {
    f64::from_bits(x.bits)
}

fn totals(sm: &OrderStateMachine, qty: f64, price: f64) -> FillTotals {
    let before = float(sm.metadata().total_filled_qty);
    let avg = float(sm.metadata().avg_fill_price);
    let total = before + qty;
    FillTotals {
        total_filled_qty: num(total),
        avg_fill_price: num((avg * before + price * qty) / total),
    }
}

fn partial(
    sm: &mut OrderStateMachine,
    qty: f64,
    price: f64,
    ts: u64,
) -> Result<OrderState, TransitionError> {
    let t = totals(sm, qty, price);
    sm.partial_fill(num(qty), num(price), t, ts)
}

fn full(
    sm: &mut OrderStateMachine,
    qty: f64,
    price: f64,
    ts: u64,
) -> Result<OrderState, TransitionError> {
    let t = totals(sm, qty, price);
    sm.full_fill(num(qty), num(price), t, ts)
}

#[test]
fn test_initial_state_is_pending() {
    let sm = OrderStateMachine::new();
    assert_eq!(*sm.current_state(), OrderState::Pending);
    assert!(sm.is_active());
    assert!(!sm.is_terminal());
}

#[test]
fn test_valid_transition_pending_to_submitted() {
    let mut sm = OrderStateMachine::new();
    let result = sm.submit(1_000_000_000);
    assert!(result.is_ok());
    assert_eq!(result.unwrap(), OrderState::Submitted);
    assert_eq!(sm.transition_count(), 1);
}

#[test]
fn test_valid_transition_submitted_to_partial_fill() {
    let mut sm = OrderStateMachine::new();
    sm.submit(1_000_000_000).unwrap();
    let result = partial(&mut sm, 5.0, 150.0, 2_000_000_000);
    assert!(result.is_ok());
    assert_eq!(result.unwrap(), OrderState::PartiallyFilled);
    assert_eq!(sm.metadata().total_filled_qty, num(5.0));
    assert_eq!(sm.metadata().avg_fill_price, num(150.0));
}

#[test]
fn test_valid_transition_partial_fill_to_full_fill() {
    let mut sm = OrderStateMachine::new();
    sm.submit(1_000_000_000).unwrap();
    partial(&mut sm, 5.0, 150.0, 2_000_000_000).unwrap();
    let result = full(&mut sm, 5.0, 151.0, 3_000_000_000);
    assert!(result.is_ok());
    assert_eq!(result.unwrap(), OrderState::Filled);
    assert_eq!(sm.metadata().total_filled_qty, num(10.0));
    assert!((float(sm.metadata().avg_fill_price) - 150.5).abs() < 0.01);
}

#[test]
fn test_valid_transition_submitted_to_filled_directly() {
    let mut sm = OrderStateMachine::new();
    sm.submit(1_000_000_000).unwrap();
    let result = full(&mut sm, 10.0, 150.0, 2_000_000_000);
    assert!(result.is_ok());
    assert_eq!(result.unwrap(), OrderState::Filled);
}

#[test]
fn test_valid_transition_submitted_to_cancelled() {
    let mut sm = OrderStateMachine::new();
    sm.submit(1_000_000_000).unwrap();
    let result = sm.cancel(2_000_000_000);
    assert!(result.is_ok());
    assert_eq!(result.unwrap(), OrderState::Cancelled);
    assert!(sm.is_terminal());
}

#[test]
fn test_valid_transition_pending_to_rejected() {
    let mut sm = OrderStateMachine::new();
    let result = sm.reject("Insufficient funds".to_string(), 1_000_000_000);
    assert!(result.is_ok());
    assert_eq!(result.unwrap(), OrderState::Rejected);
    assert_eq!(sm.metadata().rejection_reason, Some("Insufficient funds".to_string()));
}

#[test]
fn test_invalid_transition_filled_to_pending() {
    let mut sm = OrderStateMachine::new();
    sm.submit(1_000_000_000).unwrap();
    full(&mut sm, 10.0, 150.0, 2_000_000_000).unwrap();
    let result = sm.submit(3_000_000_000);
    assert!(result.is_err());
    let err = result.unwrap_err();
    assert_eq!(err.from, OrderState::Filled);
    assert_eq!(err.to, OrderState::Submitted);
}

#[test]
fn test_invalid_transition_cancelled_to_submitted() {
    let mut sm = OrderStateMachine::new();
    sm.submit(1_000_000_000).unwrap();
    sm.cancel(2_000_000_000).unwrap();
    let result = sm.submit(3_000_000_000);
    assert!(result.is_err());
}

#[test]
fn test_invalid_transition_rejected_to_partial_fill() {
    let mut sm = OrderStateMachine::new();
    sm.reject("Bad order".to_string(), 1_000_000_000).unwrap();
    let result = partial(&mut sm, 5.0, 150.0, 2_000_000_000);
    assert!(result.is_err());
}

#[test]
fn test_invalid_transition_partial_fill_to_submitted() {
    let mut sm = OrderStateMachine::new();
    sm.submit(1_000_000_000).unwrap();
    partial(&mut sm, 5.0, 150.0, 2_000_000_000).unwrap();
    let result = sm.submit(3_000_000_000);
    assert!(result.is_err());
}

#[test]
fn test_transition_log_tracks_all_changes() {
    let mut sm = OrderStateMachine::new();
    sm.submit(1_000_000_000).unwrap();
    partial(&mut sm, 5.0, 150.0, 2_000_000_000).unwrap();
    full(&mut sm, 5.0, 151.0, 3_000_000_000).unwrap();

    let log = sm.transition_log();
    assert_eq!(log.len(), 3);
    assert_eq!(log[0].0, OrderState::Pending);
    assert_eq!(log[0].1, OrderState::Submitted);
    assert_eq!(log[1].1, OrderState::PartiallyFilled);
    assert_eq!(log[2].1, OrderState::Filled);
}

#[test]
fn test_avg_fill_price_weighted_average() {
    let mut sm = OrderStateMachine::new();
    sm.submit(1_000_000_000).unwrap();
    partial(&mut sm, 10.0, 100.0, 2_000_000_000).unwrap();
    partial(&mut sm, 20.0, 130.0, 3_000_000_000).unwrap();

    let avg = float(sm.metadata().avg_fill_price);
    assert!((avg - 120.0).abs() < 0.01);
}

#[test]
fn test_terminal_states_have_no_allowed_transitions() {
    for state in &[
        OrderState::Filled,
        OrderState::Cancelled,
        OrderState::Rejected,
        OrderState::Expired,
        OrderState::Replaced,
    ] {
        assert!(
            state.allowed_transitions().is_empty(),
            "{:?} should have no allowed transitions",
            state,
        );
        assert!(state.is_terminal(), "{:?} should be terminal", state);
    }
}

#[test]
fn test_allowed_transitions_matrix() {
    let pending_allowed = OrderState::Pending.allowed_transitions();
    assert_eq!(pending_allowed, &[OrderState::Submitted, OrderState::Rejected]);

    let submitted_allowed = OrderState::Submitted.allowed_transitions();
    assert_eq!(submitted_allowed.len(), 4);
    assert!(submitted_allowed.contains(&OrderState::PartiallyFilled));
    assert!(submitted_allowed.contains(&OrderState::Filled));
    assert!(submitted_allowed.contains(&OrderState::Cancelled));
    assert!(submitted_allowed.contains(&OrderState::Rejected));

    let partial_allowed = OrderState::PartiallyFilled.allowed_transitions();
    assert_eq!(partial_allowed.len(), 3);
    assert!(partial_allowed.contains(&OrderState::PartiallyFilled));
    assert!(partial_allowed.contains(&OrderState::Filled));
    assert!(partial_allowed.contains(&OrderState::Cancelled));
}

#[test]
fn a_refused_event_changes_nothing_and_says_why() {
    let mut sm = OrderStateMachine::new();
    let err = sm.expire(7).unwrap_err();
    assert_eq!(
        err.to_text("", ""),
        "Invalid transition: Pending -> Expired (event: Expire) - Transition from Pending to \
         Expired is not allowed. Allowed: [Submitted, Rejected]"
    );
    assert_eq!(*sm.current_state(), OrderState::Pending);
    assert_eq!(sm.transition_count(), 0);
    assert_eq!(sm.metadata().last_event_timestamp_ns, 0);
    assert!(sm.replace(8).is_err());
}

#[test]
fn fills_show_their_figures() {
    let e = OrderEvent::PartialFill { filled_qty: num(5.0), fill_price: num(1.5) };
    assert_eq!(e.debug_text("5.0", "1.5"), "PartialFill { filled_qty: 5.0, fill_price: 1.5 }");
    assert_eq!(e.target_state(), OrderState::PartiallyFilled);
    let r = OrderEvent::Reject { reason: "a\"b".to_string() };
    assert_eq!(r.debug_text("", ""), format!("Reject {{ reason: {:?} }}", "a\"b"));
}

#[test]
fn every_state_has_its_behavior() {
    for s in [
        OrderState::Pending,
        OrderState::Submitted,
        OrderState::PartiallyFilled,
        OrderState::Filled,
        OrderState::Cancelled,
        OrderState::Rejected,
        OrderState::Expired,
        OrderState::Replaced,
    ] {
        assert_eq!(create_behavior_for_state(&s).state_name(), s.word());
    }
}

#[test]
fn refused_events_leave_no_gap_in_the_log() {
    let mut sm = OrderStateMachine::new();
    let mut accepted = 0;
    for (i, e) in [
        OrderEvent::Cancel,
        OrderEvent::Submit,
        OrderEvent::Submit,
        OrderEvent::Cancel,
        OrderEvent::Reject { reason: "late".to_string() },
    ]
    .into_iter()
    .enumerate()
    {
        if sm.apply_event(e, FillTotals::none(), i as u64).is_ok() {
            accepted += 1;
        }
    }
    assert_eq!(accepted, 2);
    assert_eq!(sm.transition_count(), 2);
    assert_eq!(sm.metadata().transition_count, 2);
    let log = sm.transition_log();
    assert_eq!((log[0].0, log[0].1), (OrderState::Pending, OrderState::Submitted));
    assert_eq!((log[1].0, log[1].1), (OrderState::Submitted, OrderState::Cancelled));
    assert!(sm.is_terminal());
}

use crossbeam_channel::{bounded, Receiver, Sender};

use unified_trading::channel_utils::SendOutcome;
use unified_trading::metrics::GlobalMetrics;
use unified_trading::quantity::Real;
use unified_trading::symbol_registry::{IdCounters, SymbolId};
use unified_trading::tick_reactor::{RawTick, ReactorCommand, TickReactor, TickType};

fn num(x: f64) -> Real {
    Real::from_bits(x.to_bits())
}

fn make_reactor(tick_rx: Receiver<RawTick>) -> (TickReactor, Sender<ReactorCommand>) {
    TickReactor::new(tick_rx, 64, 16, 10, 1000)
}

fn tick_for(symbol_id: SymbolId, symbol_name: Option<&str>) -> RawTick {
    RawTick {
        symbol_id,
        symbol: "AAPL".to_string(),
        tick_type: TickType::Quote,
        timestamp_ns: 0,
        bid: num(150.0),
        ask: num(150.01),
        bid_size: 100,
        ask_size: 100,
        last_price: num(150.0),
        last_size: 100,
        exchange: "V".to_string(),
        trace_id: 0,
        symbol_name: symbol_name.map(|s| s.to_string()),
    }
}

#[test]
fn test_reactor_subscribe_and_dispatch() {
    let (tick_tx, tick_rx) = bounded::<RawTick>(1000);
    let (mut reactor, _control_tx) = make_reactor(tick_rx);
    let mut metrics = GlobalMetrics::new();
    let mut ids = IdCounters::new();

    let (handler_tx, handler_rx) = bounded::<RawTick>(100);
    reactor.subscribe("AAPL".to_string(), handler_tx);

    let symbol_id = reactor.symbol_id("AAPL").unwrap();
    tick_tx.send(tick_for(symbol_id, None)).unwrap();

    reactor.process_tick_batch(&mut metrics, &mut ids);

    let received = handler_rx.try_recv().unwrap();
    assert_eq!(received.symbol_id, symbol_id);
    assert!(received.trace_id > 0);
}

#[test]
fn test_reactor_symbol_name_fallback() {
    let (tick_tx, tick_rx) = bounded::<RawTick>(1000);
    let (mut reactor, _control_tx) = make_reactor(tick_rx);
    let mut metrics = GlobalMetrics::new();
    let mut ids = IdCounters::new();

    let (handler_tx, handler_rx) = bounded::<RawTick>(100);
    reactor.subscribe("AAPL".to_string(), handler_tx);
    let expected_id = reactor.symbol_id("AAPL").unwrap();

    tick_tx.send(tick_for(SymbolId::from_raw(0), Some("AAPL"))).unwrap();
    reactor.process_tick_batch(&mut metrics, &mut ids);

    let received = handler_rx.try_recv().unwrap();
    assert_eq!(received.symbol_id, expected_id);
    assert!(received.trace_id > 0);
}

#[test]
fn test_reactor_unsubscribe() {
    let (tick_tx, tick_rx) = bounded::<RawTick>(1000);
    let (mut reactor, _control_tx) = make_reactor(tick_rx);
    let mut metrics = GlobalMetrics::new();
    let mut ids = IdCounters::new();

    let (handler_tx, _handler_rx) = bounded::<RawTick>(100);
    reactor.subscribe("AAPL".to_string(), handler_tx);
    assert_eq!(reactor.subscribed_symbols().len(), 1);

    reactor.unsubscribe("AAPL");
    assert_eq!(reactor.subscribed_symbols().len(), 0);

    tick_tx.send(tick_for(SymbolId::from_raw(0), None)).unwrap();
    reactor.process_tick_batch(&mut metrics, &mut ids);
    assert_eq!(reactor.total_dropped(), 0);
}

#[test]
fn test_reactor_back_pressure() {
    let (tick_tx, tick_rx) = bounded::<RawTick>(1000);
    let (mut reactor, _control_tx) = make_reactor(tick_rx);
    let mut metrics = GlobalMetrics::new();
    let mut ids = IdCounters::new();

    let (handler_tx, _handler_rx) = bounded::<RawTick>(1);
    reactor.subscribe("AAPL".to_string(), handler_tx);

    let symbol_id = reactor.symbol_id("AAPL").unwrap();
    tick_tx.send(tick_for(symbol_id, None)).unwrap();
    tick_tx.send(tick_for(symbol_id, None)).unwrap();

    let report = reactor.process_tick_batch(&mut metrics, &mut ids).unwrap();

    assert!(reactor.total_dropped() > 0);
    assert_eq!(metrics.dropped_intents.load(), 1);
    assert_eq!(report.done.len(), 2);
    assert!(matches!(report.done[0].outcome, Some(SendOutcome::Sent)));
    match &report.done[1].outcome {
        Some(SendOutcome::Full(t)) => assert_eq!(t.trace_id, report.done[1].trace_id),
        other => panic!("expected a full channel, got {:?}", other),
    }
    assert_eq!(reactor.get_handler_stats(), vec![(symbol_id, (1, 1))]);
}

#[test]
fn test_reactor_burst_1000_ticks() {
    let (tick_tx, tick_rx) = bounded::<RawTick>(2000);
    let (mut reactor, _control_tx) = make_reactor(tick_rx);
    let mut metrics = GlobalMetrics::new();
    let mut ids = IdCounters::new();

    let (handler_tx, handler_rx) = bounded::<RawTick>(2000);
    reactor.subscribe("AAPL".to_string(), handler_tx);

    let symbol_id = reactor.symbol_id("AAPL").unwrap();
    for _ in 0..1000 {
        tick_tx.send(tick_for(symbol_id, None)).unwrap();
    }

    let start = std::time::Instant::now();
    while reactor.total_ticks() < 1000 {
        reactor.process_tick_batch(&mut metrics, &mut ids);
    }
    let elapsed = start.elapsed();

    assert_eq!(reactor.total_ticks(), 1000, "All 1000 ticks must be processed");
    assert_eq!(reactor.total_dropped(), 0);

    let mut received = 0;
    while let Ok(_) = handler_rx.try_recv() {
        received += 1;
    }
    assert_eq!(received, 1000, "All 1000 ticks must reach the handler");
    assert!(
        elapsed.as_micros() < 50_000,
        "1000 ticks must be processed within 50ms, took {:?}",
        elapsed,
    );
}

#[test]
fn test_reactor_idle_blocks_with_timeout() {
    let (_tick_tx, tick_rx) = bounded::<RawTick>(1000);
    let mut reactor = TickReactor::new(tick_rx, 64, 16, 5_000, 1000).0;
    let mut metrics = GlobalMetrics::new();
    let mut ids = IdCounters::new();

    let start = std::time::Instant::now();
    assert!(reactor.process_tick_batch(&mut metrics, &mut ids).is_none());
    let elapsed = start.elapsed();

    assert!(elapsed.as_micros() >= 4_000, "returned in {:?}", elapsed);
    assert!(elapsed.as_micros() < 50_000, "took {:?}", elapsed);
    assert_eq!(reactor.total_ticks(), 0, "No ticks should be processed when idle");
}

#[test]
fn commands_are_obeyed_until_a_shutdown() {
    let (_tick_tx, tick_rx) = bounded::<RawTick>(1);
    let (mut reactor, control_tx) = make_reactor(tick_rx);
    let (tx, _rx) = bounded::<RawTick>(1);
    control_tx
        .send(ReactorCommand::Subscribe { symbol: "A".to_string(), tx: tx.clone() })
        .unwrap();
    let other = reactor.control_tx();
    other.send(ReactorCommand::Subscribe { symbol: "B".to_string(), tx }).unwrap();
    other.send(ReactorCommand::Unsubscribe { symbol: "A".to_string() }).unwrap();
    other.send(ReactorCommand::Shutdown).unwrap();
    other.send(ReactorCommand::Unsubscribe { symbol: "B".to_string() }).unwrap();
    assert!(reactor.goes_on(false));
    assert!(!reactor.goes_on(true));
    reactor.process_control_batch();
    assert!(!reactor.goes_on(false));
    assert_eq!(reactor.subscribed_symbols(), vec!["B".to_string()]);
}

#[test]
fn only_so_many_commands_are_obeyed_at_once() {
    let (_tick_tx, tick_rx) = bounded::<RawTick>(1);
    let (mut reactor, control_tx) = TickReactor::new(tick_rx, 64, 2, 10, 1);
    let (tx, _rx) = bounded::<RawTick>(1);
    for s in ["A", "B", "C"] {
        control_tx
            .send(ReactorCommand::Subscribe { symbol: s.to_string(), tx: tx.clone() })
            .unwrap();
    }
    reactor.process_control_batch();
    assert_eq!(reactor.subscribed_symbols().len(), 2);
    reactor.process_control_batch();
    assert_eq!(reactor.subscribed_symbols().len(), 3);
}

#[test]
fn back_pressure_is_reported_now_and_again() {
    let (_tick_tx, tick_rx) = bounded::<RawTick>(1);
    let (mut reactor, _c) = TickReactor::new(tick_rx, 64, 2, 10, 2);
    let (tx, _rx) = bounded::<RawTick>(0);
    reactor.subscribe("AAPL".to_string(), tx);
    let mut metrics = GlobalMetrics::new();
    let mut ids = IdCounters::new();
    let reports: Vec<bool> = (0..4)
        .map(|_| {
            let t = tick_for(SymbolId::from_raw(0), None);
            reactor.dispatch(t, 1, &mut metrics, &mut ids).report
        })
        .collect();
    assert_eq!(reports, vec![false, true, false, true]);
}

#[test]
fn a_tick_of_an_unknown_symbol_goes_nowhere() {
    let (_tick_tx, tick_rx) = bounded::<RawTick>(1);
    let (mut reactor, _c) = make_reactor(tick_rx);
    let mut metrics = GlobalMetrics::new();
    let mut ids = IdCounters::new();
    let d = reactor.dispatch(tick_for(SymbolId::from_raw(3), None), 1, &mut metrics, &mut ids);
    assert!(d.outcome.is_none());
    assert_eq!(d.symbol_id, SymbolId::from_raw(3));
    assert_eq!(reactor.total_ticks(), 1);
}

#[test]
fn a_tick_that_came_in_goes_first() {
    let (tick_tx, tick_rx) = bounded::<RawTick>(10);
    let (mut reactor, _control_tx) = make_reactor(tick_rx);
    let mut metrics = GlobalMetrics::new();
    let mut ids = IdCounters::new();

    let (handler_tx, handler_rx) = bounded::<RawTick>(10);
    reactor.subscribe("AAPL".to_string(), handler_tx);
    let symbol_id = reactor.symbol_id("AAPL").unwrap();

    assert!(reactor.process_received(None, &mut metrics, &mut ids).is_none());
    assert_eq!(reactor.total_ticks(), 0);

    let mut first = tick_for(symbol_id, None);
    first.timestamp_ns = 1;
    let mut second = tick_for(symbol_id, None);
    second.timestamp_ns = 2;
    tick_tx.send(second).unwrap();

    let report = reactor.process_received(Some(first), &mut metrics, &mut ids).unwrap();
    assert_eq!(report.done.len(), 2);
    assert_eq!(reactor.total_ticks(), 2);
    assert_eq!(handler_rx.try_recv().unwrap().timestamp_ns, 1);
    assert_eq!(handler_rx.try_recv().unwrap().timestamp_ns, 2);
}

use crossbeam_channel::bounded;

use unified_trading::asset_processor::{
    build_risk_request, quantity_source, recv_batch, AssetProcessor, PredictionSource,
    QuantitySource, SignalSide, SizeHint, SizedSignal, TickStep,
};
use unified_trading::channel_utils::PolicySendError;
use unified_trading::clock::TestClock;
use unified_trading::config::BackpressurePolicy;
use unified_trading::features::{FeatureIndex, FeatureVector};
use unified_trading::kill_switch::KillSwitch;
use unified_trading::metrics::GlobalMetrics;
use unified_trading::quantity::{Real, Real32};
use unified_trading::symbol_registry::{IdCounters, SymbolId};

fn num(x: f64) -> Real {
    Real::from_bits(x.to_bits())
}

fn processor() -> AssetProcessor {
    AssetProcessor {
        symbol: "AAPL".to_string(),
        symbol_id: SymbolId::from_raw(3),
        tick_processing_budget_us: 100,
        feature_backpressure_policy: BackpressurePolicy::DropOldest,
        risk_backpressure_policy: BackpressurePolicy::BlockWithTimeoutMs(5),
        current_prediction_version: 0,
    }
}

fn signal(side: SignalSide) -> SizedSignal {
    SizedSignal {
        symbol_id: SymbolId::from_raw(3),
        intent_id: 9,
        side,
        quantity: num(10.0),
        volatility: num(0.25),
        trace_id: 77,
    }
}

#[test]
fn a_request_carries_the_signal_on() {
    let mut ids = IdCounters::new();
    let r = build_risk_request(&signal(SignalSide::Short), num(3.0), num(150.0), 5, &mut ids);
    assert_eq!(r.request_id, 1);
    assert_eq!(r.side, 2);
    assert_eq!(r.trace_id, 77);
    assert_eq!(r.price, num(150.0));
    assert_eq!(r.current_spread_bps, num(3.0));
    assert_eq!(r.current_volatility, num(0.25));
    assert_eq!(r.timestamp_ns, 5);
}

#[test]
fn sides_have_numbers_of_their_own() {
    let mut ids = IdCounters::new();
    let numbers: Vec<u8> = [
        SignalSide::Hold,
        SignalSide::Long,
        SignalSide::Short,
        SignalSide::CloseLong,
        SignalSide::CloseShort,
        SignalSide::Flatten,
    ]
    .iter()
    .map(|s| build_risk_request(&signal(*s), num(0.0), num(1.0), 0, &mut ids).side)
    .collect();
    assert_eq!(numbers, vec![0, 1, 2, 3, 4, 5]);
}

#[test]
fn money_needs_a_price() {
    assert_eq!(
        quantity_source(SizeHint::Notional(num(100.0)), num(50.0)),
        QuantitySource::Divide(num(100.0))
    );
    assert_eq!(
        quantity_source(SizeHint::Notional(num(100.0)), num(0.0)),
        QuantitySource::Default
    );
    assert_eq!(
        quantity_source(SizeHint::Units(num(2.0)), num(0.0)),
        QuantitySource::Units(num(2.0))
    );
    assert_eq!(quantity_source(SizeHint::Other, num(1.0)), QuantitySource::Default);
}

#[test]
fn batches_are_taken_as_they_come() {
    let (tx, rx) = bounded::<u32>(10);
    let mut buf = vec![99];
    assert_eq!(recv_batch(&rx, &mut buf, 4), 0);
    assert!(buf.is_empty());
    for i in 0..6 {
        tx.send(i).unwrap();
    }
    assert_eq!(recv_batch(&rx, &mut buf, 4), 4);
    assert_eq!(buf, vec![0, 1, 2, 3]);
    assert_eq!(recv_batch(&rx, &mut buf, 4), 2);
    assert_eq!(buf, vec![4, 5]);
}

#[test]
fn a_spent_budget_skips_the_rest_of_the_batch() {
    let mut p = processor();
    let mut metrics = GlobalMetrics::new();
    assert_eq!(p.after_features(100, 3, &mut metrics), TickStep::Predict(1));
    assert_eq!(p.after_features(101, 3, &mut metrics), TickStep::SkipRest(4));
    assert_eq!(metrics.ticks_skipped.load(), 4);
    assert_eq!(metrics.snapshot().per_symbol_ticks_skipped.get("AAPL"), Some(&3));
    assert_eq!(p.current_prediction_version, 1);
    p.count_drained(&mut metrics);
    assert_eq!(metrics.ticks_processed.load(), 1);
}

#[test]
fn the_kill_switch_stops_the_processor() {
    assert!(processor().fast_precheck(false));
    assert!(!processor().fast_precheck(true));
}

#[test]
fn a_prediction_that_is_not_valid_is_replaced() {
    let p = processor();
    let mut metrics = GlobalMetrics::new();
    assert_eq!(p.after_prediction(true, &mut metrics), PredictionSource::Model);
    assert_eq!(p.after_prediction(false, &mut metrics), PredictionSource::Heuristic);
    assert_eq!(metrics.model_fallback_activations.load(), 1);
}

#[test]
fn ticks_are_counted_with_their_gaps() {
    let p = processor();
    let mut metrics = GlobalMetrics::new();
    p.count_tick(true, 1_000, 5_000, &mut metrics);
    p.count_tick(false, 9_000, 5_000, &mut metrics);
    let s = metrics.snapshot();
    assert_eq!(s.feed_gaps, 1);
    assert_eq!(s.per_symbol_ticks.get("AAPL"), Some(&2));
    assert_eq!(s.feed_latency.iter().sum::<u64>(), 2);
}

#[test]
fn features_are_forwarded_and_counted() {
    let p = processor();
    let mut metrics = GlobalMetrics::new();
    let (tx, rx) = bounded::<u32>(1);
    assert!(p.forward_features(&tx, &rx, 1, &mut metrics));
    assert!(p.forward_features(&tx, &rx, 2, &mut metrics));
    assert_eq!(rx.try_recv(), Ok(2));
    assert_eq!(metrics.feature_channel_depth, 2);
    p.after_feature_send(false, &mut metrics);
    assert_eq!(metrics.feature_channel_depth, 2);
}

#[test]
fn intents_that_are_lost_are_counted() {
    let p = processor();
    let mut metrics = GlobalMetrics::new();
    let mut ks = KillSwitch::with_clock(TestClock::new(1));
    p.after_intent_send::<u32, TestClock>(&Ok(()), 5, &mut ks, &mut metrics);
    assert_eq!(metrics.intents_generated.load(), 1);
    assert_eq!(metrics.risk_channel_depth, 1);
    let lost: Result<(), PolicySendError<u32>> = Err(PolicySendError::Disconnected(3));
    p.after_intent_send(&lost, 5, &mut ks, &mut metrics);
    assert_eq!(metrics.intents_generated.load(), 1);
}

fn features(macd_histogram: f32) -> FeatureVector {
    let mut fv = FeatureVector::new(SymbolId::from_raw(42), 1000);
    for (index, value) in [
        (FeatureIndex::MidPrice, 150.0),
        (FeatureIndex::Rsi14, 55.0),
        (FeatureIndex::MacdHistogram, macd_histogram),
        (FeatureIndex::Atr14, 0.5),
        (FeatureIndex::VolumeRatio, 1.2),
        (FeatureIndex::Regime, 1.0),
        (FeatureIndex::RegimeStrength, 0.6),
        (FeatureIndex::Confidence, 0.7),
    ] {
        fv.set(index, Real32 { bits: f32::to_bits(value) });
    }
    fv
}

/// Whether a score of the features is a number, as one of a model has to be.
fn scores(fv: &FeatureVector) -> bool {
    let rsi = f32::from_bits(fv.get(FeatureIndex::Rsi14).bits);
    let macd = f32::from_bits(fv.get(FeatureIndex::MacdHistogram).bits);
    (0.4 * (rsi - 50.0) / 50.0 + 0.4 * macd).is_finite()
}

#[test]
fn test_heuristic_fallback_on_invalid_prediction() {
    let mut p = processor();
    let mut metrics = GlobalMetrics::new();
    p.current_prediction_version = 4;
    let fv = features(f32::NAN);
    assert!(!scores(&fv));
    assert_eq!(p.after_features(0, 0, &mut metrics), TickStep::Predict(5));
    assert_eq!(p.after_prediction(scores(&fv), &mut metrics), PredictionSource::Heuristic);
    assert_eq!(metrics.model_fallback_activations.load(), 1);
    assert_eq!(p.current_prediction_version, 5);
}

#[test]
fn test_prediction_version_monotonicity_with_fallback() {
    let mut p = processor();
    let mut metrics = GlobalMetrics::new();
    let fv_nan = features(f32::NAN);
    let fv_normal = features(0.4);
    let mut current_version = 0u64;
    for i in 0..10 {
        current_version += 1;
        let fv = if i % 2 == 0 { &fv_nan } else { &fv_normal };
        assert_eq!(p.after_features(0, 0, &mut metrics), TickStep::Predict(current_version));
        let source = p.after_prediction(scores(fv), &mut metrics);
        if i % 2 == 0 {
            assert_eq!(source, PredictionSource::Heuristic);
        } else {
            assert_eq!(source, PredictionSource::Model);
        }
    }
    assert_eq!(metrics.model_fallback_activations.load(), 5);
}

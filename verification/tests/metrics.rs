use crossbeam_channel::bounded;
use std::time::Duration;

use unified_trading::clock::Span;
use unified_trading::metrics::{
    apply_batch_to, flush_due, gauge_add, AggregatorEvent, CachePaddedAtomicU64, GlobalMetrics, LatencyHistogram,
    MetricsAggregator, MetricsBatch, ThreadLocalMetrics,
};

#[test]
fn test_metrics_initial_state() {
    let m = GlobalMetrics::new();
    let snap = m.snapshot();
    assert_eq!(snap.ticks_processed, 0);
    assert_eq!(snap.errors, 0);
}

#[test]
fn test_metrics_increment() {
    let mut m = GlobalMetrics::new();
    m.ticks_processed.fetch_add(1);
    m.ticks_processed.fetch_add(5);
    assert_eq!(m.ticks_processed.load(), 6);
}

#[test]
fn test_metrics_reset() {
    let mut m = GlobalMetrics::new();
    m.ticks_processed.fetch_add(100);
    m.errors.fetch_add(5);
    m.reset();
    let snap = m.snapshot();
    assert_eq!(snap.ticks_processed, 0);
    assert_eq!(snap.errors, 0);
}

#[test]
fn test_metrics_snapshot() {
    let mut m = GlobalMetrics::new();
    m.intents_approved.fetch_add(10);
    m.intents_rejected.fetch_add(3);
    let snap = m.snapshot();
    assert_eq!(snap.intents_approved, 10);
    assert_eq!(snap.intents_rejected, 3);
}

#[test]
fn test_metrics_batch_merge() {
    let mut batch1 = MetricsBatch::new();
    batch1.ticks_processed = 100;
    batch1.features_computed = 100;
    batch1.intents_generated = 50;
    batch1.per_symbol_ticks.insert("AAPL".to_string(), 50);
    batch1.per_symbol_features.insert("AAPL".to_string(), 50);

    let mut batch2 = MetricsBatch::new();
    batch2.ticks_processed = 50;
    batch2.features_computed = 50;
    batch2.intents_generated = 25;
    batch2.per_symbol_ticks.insert("AAPL".to_string(), 25);
    batch2.per_symbol_ticks.insert("TSLA".to_string(), 30);

    batch1.merge(&batch2);

    assert_eq!(batch1.ticks_processed, 150);
    assert_eq!(batch1.features_computed, 150);
    assert_eq!(batch1.intents_generated, 75);
    assert_eq!(batch1.per_symbol_ticks.get("AAPL"), Some(&75));
    assert_eq!(batch1.per_symbol_ticks.get("TSLA"), Some(&30));
}

#[test]
fn test_thread_local_metrics_accumulation() {
    let (tx, rx) = bounded::<MetricsBatch>(100);

    let mut local = ThreadLocalMetrics::new(tx, Span::from_secs(60), 10_000);

    local.accumulate("AAPL");
    local.accumulate("AAPL");
    local.accumulate("TSLA");
    assert_eq!(local.batch().ticks_processed, 3);

    local.flush();

    assert_eq!(local.batch().ticks_processed, 0);
    assert_eq!(local.batch().features_computed, 0);
    let batch = rx.try_recv().unwrap();
    assert_eq!(batch.per_symbol_ticks.get("AAPL"), Some(&2));
    assert_eq!(batch.per_symbol_ticks.get("TSLA"), Some(&1));
}

#[test]
fn test_thread_local_metrics_tick_threshold_flush() {
    let (tx, rx) = bounded::<MetricsBatch>(100);

    let mut local = ThreadLocalMetrics::new(tx, Span::from_secs(60), 3);

    local.accumulate("AAPL");
    local.accumulate("AAPL");
    local.accumulate("AAPL");

    let batch = rx.recv_timeout(Duration::from_millis(100)).unwrap();
    assert_eq!(batch.ticks_processed, 3);
    assert_eq!(batch.features_computed, 3);
}

#[test]
fn test_thread_local_metrics_drop_flushes() {
    let (tx, rx) = bounded::<MetricsBatch>(100);
    {
        let mut local = ThreadLocalMetrics::new(tx, Span::from_secs(60), 10_000);
        local.accumulate("AAPL");
        local.accumulate("AAPL");
        local.flush();
    }
    let batch = rx.recv_timeout(Duration::from_millis(100)).unwrap();
    assert_eq!(batch.ticks_processed, 2);
    assert_eq!(batch.features_computed, 2);
}

#[test]
fn test_metrics_aggregator_apply_batch() {
    let mut aggregator = MetricsAggregator::new(GlobalMetrics::new());

    let mut batch = MetricsBatch::new();
    batch.ticks_processed = 0;
    batch.features_computed = 100;
    batch.intents_generated = 50;
    batch.feed_gaps = 5;
    batch.per_symbol_ticks.insert("AAPL".to_string(), 75);
    batch.per_symbol_features.insert("AAPL".to_string(), 75);

    aggregator.apply_batch(&batch);

    let metrics = &aggregator.global_metrics;
    assert_eq!(metrics.features_computed.load(), 100);
    assert_eq!(metrics.intents_generated.load(), 50);
    assert_eq!(metrics.feed_gaps.load(), 5);

    let snap = metrics.snapshot();
    assert_eq!(snap.per_symbol_ticks.get("AAPL"), Some(&75));
    assert_eq!(snap.per_symbol_features.get("AAPL"), Some(&75));
}

#[test]
fn merging_in_either_order_gives_the_same() {
    let make = |n: u64, symbol: &str| {
        let mut b = MetricsBatch::new();
        b.ticks_processed = n;
        b.per_symbol_ticks.insert(symbol.to_string(), n);
        b
    };
    let mut ab = make(3, "A");
    ab.merge(&make(4, "B"));
    let mut ba = make(4, "B");
    ba.merge(&make(3, "A"));
    assert_eq!(ab.ticks_processed, ba.ticks_processed);
    for s in ["A", "B"] {
        assert_eq!(ab.per_symbol_ticks.get(s), ba.per_symbol_ticks.get(s));
    }
}

#[test]
fn a_latency_falls_in_one_bucket() {
    let mut h = LatencyHistogram::new();
    h.record(500);
    h.record(u64::MAX);
    let s = h.snapshot();
    assert_eq!(s.iter().sum::<u64>(), 2);
    assert_eq!(s[0], 1);
    assert_eq!(s[5], 1);
    h.reset();
    assert_eq!(h.snapshot(), [0, 0, 0, 0, 0, 0]);
}

#[test]
fn counters_wrap_around() {
    let mut c = CachePaddedAtomicU64::new(u64::MAX);
    assert_eq!(c.fetch_add(2), u64::MAX);
    assert_eq!(c.load(), 1);
    c.store(9);
    assert_eq!(c.load(), 9);
    let mut g: i64 = 3;
    gauge_add(&mut g, -5);
    assert_eq!(g, -2);
}

#[test]
fn a_batch_is_due_by_ticks_or_by_time() {
    let minute = Span::from_secs(60);
    assert!(!flush_due(2, 3, &Span::from_secs(1), &minute));
    assert!(flush_due(3, 3, &Span::from_secs(1), &minute));
    assert!(flush_due(0, 3, &Span::from_secs(60), &minute));
}

#[test]
fn the_aggregator_stops_when_told() {
    let mut aggregator = MetricsAggregator::new(GlobalMetrics::new());
    let mut b = MetricsBatch::new();
    b.features_computed = 2;
    assert!(aggregator.step(AggregatorEvent::Batch(b)));
    assert_eq!(aggregator.global_metrics.features_computed.load(), 2);
    assert!(aggregator.step(AggregatorEvent::Idle(false)));
    assert!(!aggregator.step(AggregatorEvent::Idle(true)));
    assert!(!aggregator.step(AggregatorEvent::Disconnected));
}

#[test]
fn what_a_thread_records_ends_up_in_its_batch() {
    let (tx, _rx) = bounded::<MetricsBatch>(1);
    let mut local = ThreadLocalMetrics::new(tx, Span::from_secs(60), 100);
    local.record_intent_generated();
    local.record_dropped_intent();
    local.record_feed_gap();
    local.record_feature_channel_depth(-2);
    local.record_tick_to_intent_latency(1);
    assert_eq!(local.batch().intents_generated, 1);
    assert_eq!(local.batch().dropped_intents, 1);
    assert_eq!(local.batch().feed_gaps, 1);
    assert_eq!(local.batch().feature_channel_depth_delta, -2);
    assert!(local.take_batch().is_none());
}

#[test]
fn a_merged_batch_applies_both() {
    let batch = |n: u64, symbol: &str| {
        let mut b = MetricsBatch::new();
        b.features_computed = n;
        b.errors = n + 1;
        b.feed_latency[2] = n;
        b.risk_channel_depth_delta = -(n as i64);
        b.per_symbol_ticks.insert(symbol.to_string(), n);
        b
    };
    let mut m = GlobalMetrics::new();
    m.errors.store(u64::MAX);
    let mut n = GlobalMetrics::new();
    n.errors.store(u64::MAX);
    apply_batch_to(&mut m, &batch(3, "A"));
    apply_batch_to(&mut m, &batch(4, "B"));
    let mut both = batch(3, "A");
    both.merge(&batch(4, "B"));
    apply_batch_to(&mut n, &both);
    let (x, y) = (m.snapshot(), n.snapshot());
    assert_eq!((x.features_computed, x.errors, x.risk_channel_depth), (7, 8, -7));
    assert_eq!((y.features_computed, y.errors, y.risk_channel_depth), (7, 8, -7));
    assert_eq!(x.feed_latency, y.feed_latency);
    assert_eq!(x.per_symbol_ticks.get("A"), y.per_symbol_ticks.get("A"));
    assert_eq!(y.per_symbol_ticks.get("B"), Some(&4));
}

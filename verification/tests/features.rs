use unified_trading::feature_engine::{
    FeatureEngine, FeatureFigures, MicrostructureComputer, NormalizedTick, RegimeComputer,
    RegimeFigures, VolumeComputer,
};
use unified_trading::features::{
    FeatureIndex, FeatureVector, RegimeLabel, RollingWindow, FEATURE_COUNT,
    FEATURE_SCHEMA_VERSION,
};
use unified_trading::indicators::{
    ATRState, EMAState, RSIState, WindowFigures, WindowManager, WindowSizes,
};
use unified_trading::quantity::{Real, Real32};
use unified_trading::symbol_registry::SymbolId;

fn num(x: f64) -> Real {
    Real::from_bits(x.to_bits())
}

fn float(x: Real) -> f64 {
    f64::from_bits(x.bits)
}

fn small(x: f32) -> Real32 {
    Real32 { bits: x.to_bits() }
}

fn float32(x: Real32) -> f32 {
    f32::from_bits(x.bits)
}

fn mean(w: &RollingWindow<Real>) -> f64 {
    let vals = w.values();
    let sum: f64 = vals.iter().map(|v| float(*v)).sum();
    float(w.mean(num(sum), num(sum / vals.len() as f64)))
}

fn std_dev(w: &RollingWindow<Real>) -> f64 {
    let vals = w.values();
    let m = mean(w);
    let sum: f64 = vals.iter().map(|v| (float(*v) - m) * (float(*v) - m)).sum();
    let variance = if vals.len() > 1 { sum / (vals.len() - 1) as f64 } else { 0.0 };
    float(w.std_dev(num(variance), num(variance.sqrt())))
}

fn multiplier(period: usize) -> Real {
    num(2.0 / (period + 1) as f64)
}

fn moved(e: &EMAState, price: f64) -> f64 {
    (price - float(e.value)) * float(e.multiplier) + float(e.value)
}

fn ema_update(e: &mut EMAState, price: f64) -> f64 {
    let m = moved(e, price);
    float(e.update(num(price), num(m)))
}

fn rsi_value(s: &RSIState) -> f64 {
    let gain = mean(&s.gains);
    let loss = mean(&s.losses);
    float(RSIState::strength(num(loss), num(100.0 - (100.0 / (1.0 + gain / loss)))))
}

fn rsi_update(s: &mut RSIState, price: f64) -> f64 {
    let change = price - float(s.last_price);
    s.record(num(price), num(change));
    rsi_value(s)
}

fn range(s: &ATRState, high: f64, low: f64) -> f64 {
    let c = float(s.last_close);
    (high - low).max((high - c).abs()).max((low - c).abs())
}

fn atr_update(s: &mut ATRState, high: f64, low: f64, close: f64) -> f64 {
    let r = range(s, high, low);
    s.record(num(high), num(low), num(close), num(r));
    mean(&s.tr_values)
}

fn sizes() -> WindowSizes {
    WindowSizes {
        rsi_period: 14,
        atr_period: 14,
        price_window: 50,
        volume_window: 20,
        spread_window: 20,
        return_1_window: 1,
        return_5_window: 5,
        return_20_window: 20,
        ema_9: multiplier(9),
        ema_21: multiplier(21),
        ema_50: multiplier(50),
        macd_signal: multiplier(9),
    }
}

fn wm_update(wm: &mut WindowManager, mid: f64, volume: f64, spread: f64) {
    let next = |e: &EMAState| if e.initialized { moved(e, mid) } else { mid };
    let macd_line = next(&wm.ema_9) - next(&wm.ema_21);
    let high = mid + spread / 2.0;
    let low = mid - spread / 2.0;
    let last = float(wm.last_mid_price);
    let f = WindowFigures {
        ema_9: num(moved(&wm.ema_9, mid)),
        ema_21: num(moved(&wm.ema_21, mid)),
        ema_50: num(moved(&wm.ema_50, mid)),
        macd_line: num(macd_line),
        macd_signal: num(moved(&wm.macd_signal_ema, macd_line)),
        change: num(mid - float(wm.rsi_14.last_price)),
        high: num(high),
        low: num(low),
        range: num(range(&wm.atr_14, high, low)),
        gain: num((mid - last) / last),
    };
    wm.update(num(mid), num(volume), num(spread), f);
}

fn make_tick(symbol_id: SymbolId, ts: u64, mid: f64, spread: f64) -> NormalizedTick {
    NormalizedTick {
        symbol_id,
        timestamp_ns: ts,
        mid_price: num(mid),
        spread: num(spread),
        spread_bps: num((spread / mid) * 10_000.0),
        bid: num(mid - spread / 2.0),
        ask: num(mid + spread / 2.0),
        bid_size: 100,
        ask_size: 200,
        volume: 50,
    }
}

fn regime_figures(last_mid: f64, atr: f32, histogram: f32) -> RegimeFigures {
    let ratio = atr as f64 / last_mid;
    RegimeFigures {
        last_mid_price: num(last_mid),
        atr_ratio: num(ratio),
        volatile_atr_threshold: num(0.02),
        macd_histogram: small(histogram),
        trending_threshold: small(0.5),
        volatile_strength: small((ratio / 0.05) as f32),
        ranging_strength: small(1.0 - histogram.abs()),
    }
}

fn compute(wm: &mut WindowManager, tick: &NormalizedTick) -> FeatureVector {
    let mid = float(tick.mid_price);
    let spread = float(tick.spread);
    wm_update(wm, mid, tick.volume as f64, spread);
    let rsi = rsi_update(&mut wm.rsi_14, mid) as f32;
    let macd_line = float(wm.ema_9.value) as f32 - float(wm.ema_21.value) as f32;
    let macd_signal = float(wm.macd_signal_ema.value) as f32;
    let half = float(*wm.spread_window.last().unwrap()) / 2.0;
    let atr = atr_update(&mut wm.atr_14, mid + half, mid - half, mid) as f32;
    let avg_volume = mean(&wm.volume_window);
    let (bid, ask) = (tick.bid_size as f64, tick.ask_size as f64);
    let f = FeatureFigures {
        mid: small(mid as f32),
        spread_bps: small(float(tick.spread_bps) as f32),
        spread_abs: small(spread as f32),
        rsi: small(rsi),
        macd_line: small(macd_line),
        macd_signal: small(macd_signal),
        atr: small(atr),
        std_dev: small(std_dev(&wm.price_window) as f32),
        mean_volume: num(avg_volume),
        volume_ratio: small((tick.volume as f64 / avg_volume) as f32),
        volume_ratio_clamp: small(0.3),
        imbalance: small(((bid - ask) / (bid + ask)) as f32),
        regime: regime_figures(mid, atr, macd_line - macd_signal),
        ema_9: small(float(wm.ema_9.value) as f32),
        ema_21: small(float(wm.ema_21.value) as f32),
        ema_50: small(float(wm.ema_50.value) as f32),
    };
    FeatureEngine::compute(tick, &f)
}

#[test]
fn test_feature_vector() {
    let symbol_id = SymbolId::from_raw(0);
    let mut fv = FeatureVector::new(symbol_id, 1000);
    fv.set(FeatureIndex::MidPrice, small(150.0));
    fv.set(FeatureIndex::Rsi14, small(65.0));
    assert_eq!(fv.len(), FEATURE_COUNT);
    assert_eq!(fv.get(FeatureIndex::MidPrice), small(150.0));
    assert_eq!(fv.get(FeatureIndex::Confidence), small(0.0));
    assert!(!fv.is_empty());
    assert_eq!(fv.feature_schema_version, FEATURE_SCHEMA_VERSION);
}

#[test]
fn test_rolling_window() {
    let mut rw = RollingWindow::new(5);
    for i in 1..=7 {
        rw.push(i as f64);
    }
    assert_eq!(rw.len(), 5);
    let vals = rw.values();
    assert_eq!(vals.len(), 5);
    assert_eq!(vals, vec![3.0, 4.0, 5.0, 6.0, 7.0]);
    assert_eq!(rw.last(), Some(&7.0));
}

#[test]
fn test_rolling_window_mean() {
    let mut rw = RollingWindow::new(4);
    rw.push(num(2.0));
    rw.push(num(4.0));
    rw.push(num(4.0));
    rw.push(num(4.0));
    assert!((mean(&rw) - 3.5).abs() < 0.001);
}

#[test]
fn test_ema_state() {
    let mut ema = EMAState::new(multiplier(9));
    ema_update(&mut ema, 100.0);
    assert!(ema.initialized);
    assert_eq!(ema.value, num(100.0));
    ema_update(&mut ema, 101.0);
    assert!(float(ema.value) > 100.0 && float(ema.value) < 101.0);
}

#[test]
fn test_rsi_state() {
    let mut rsi = RSIState::new(14);
    rsi.last_price = num(100.0);
    for _ in 0..14 {
        rsi_update(&mut rsi, 101.0);
    }
    let val = rsi_update(&mut rsi, 102.0);
    assert!(val >= 0.0 && val <= 100.0);
}

#[test]
fn test_atr_state() {
    let mut atr = ATRState::new(14);
    atr.last_close = num(100.0);
    atr_update(&mut atr, 101.0, 99.0, 100.5);
    let val = atr_update(&mut atr, 102.0, 100.0, 101.0);
    assert!(val > 0.0);
}

#[test]
fn test_feature_vector_to_array() {
    let symbol_id = SymbolId::from_raw(0);
    let mut fv = FeatureVector::new(symbol_id, 1000);
    fv.set(FeatureIndex::MidPrice, small(1.0));
    fv.set(FeatureIndex::Rsi14, small(2.0));
    let arr = fv.to_array(5);
    assert_eq!(arr.len(), 5);
    assert_eq!(arr[0], small(1.0));
    assert_eq!(arr[1], small(0.0));
    assert_eq!(arr[2], small(0.0));
    let long = fv.to_array(20);
    assert_eq!(long[3], small(2.0));
    assert_eq!(long[19], small(0.0));
}

#[test]
fn test_window_manager_update() {
    let mut wm = WindowManager::new("AAPL", sizes());
    wm_update(&mut wm, 150.0, 1000.0, 0.05);
    wm_update(&mut wm, 150.1, 1200.0, 0.04);
    wm_update(&mut wm, 150.2, 800.0, 0.06);

    assert!((float(wm.last_mid_price) - 150.2).abs() < 0.001);
    assert!(wm.ema_9.initialized);
    assert!(float(wm.rsi_14.last_price) > 0.0);
    assert_eq!(wm.return_20.len(), 2);
    assert_eq!(wm.price_window.len(), 3);
}

#[test]
fn test_window_manager_returns() {
    let mut wm = WindowManager::new("MSFT", sizes());
    wm.last_mid_price = num(400.0);
    wm_update(&mut wm, 401.0, 500.0, 0.04);
    assert!(wm.return_1.len() == 1);
}

#[test]
fn test_feature_engine_compute() {
    let mut wm = WindowManager::new("AAPL", sizes());
    let tick = make_tick(SymbolId::from_raw(0), 1000, 150.0, 0.05);
    let fv = compute(&mut wm, &tick);
    assert_eq!(fv.len(), FEATURE_COUNT);
    assert!(float32(fv.get(FeatureIndex::MidPrice)) > 0.0);
    assert!(float32(fv.get(FeatureIndex::Rsi14)) > 0.0);
    assert_eq!(fv.get(FeatureIndex::VolumeRatio), small(0.3));
}

#[test]
fn test_feature_engine_snapshot() {
    let mut wm = WindowManager::new("MSFT", sizes());
    let tick = make_tick(SymbolId::from_raw(1), 2000, 400.0, 0.04);
    let fv = compute(&mut wm, &tick);
    let snap = FeatureEngine::compute_snapshot(&fv);
    assert_eq!(snap.symbol_id, SymbolId::from_raw(1));
    assert!((float32(snap.mid_price) - 400.0).abs() < 0.01);
}

#[test]
fn test_feature_engine_multiple_ticks() {
    let mut wm = WindowManager::new("AAPL", sizes());
    for i in 0..20 {
        let tick = make_tick(SymbolId::from_raw(0), i * 1000, 150.0 + (i as f64 * 0.01), 0.05);
        compute(&mut wm, &tick);
    }
    let tick = make_tick(SymbolId::from_raw(0), 20000, 150.2, 0.05);
    let fv = compute(&mut wm, &tick);
    assert!(float32(fv.get(FeatureIndex::Ema9)) > 0.0);
    assert!(float32(fv.get(FeatureIndex::Atr14)) > 0.0);
}

#[test]
fn test_volume_computer() {
    let ratio = VolumeComputer::compute(num(1000.0), small((50.0f64 / 1000.0) as f32));
    assert!((float32(ratio) - 0.05).abs() < 0.001);
    assert_eq!(VolumeComputer::compute(num(0.0), small(f32::INFINITY)), small(1.0));
}

#[test]
fn test_regime_computer_volatile() {
    let (regime, strength) = RegimeComputer::compute(&regime_figures(100.0, 3.0, 0.1));
    assert!(matches!(regime, RegimeLabel::Volatile));
    assert!(float32(strength) > 0.0);
}

#[test]
fn test_regime_computer_ranging() {
    let (regime, _strength) = RegimeComputer::compute(&regime_figures(100.0, 0.001, 0.01));
    assert!(matches!(regime, RegimeLabel::Ranging));
}

#[test]
fn a_trend_is_told_by_its_strength() {
    let (regime, strength) = RegimeComputer::compute(&regime_figures(100.0, 0.001, -0.75));
    assert_eq!(regime, RegimeLabel::Trending);
    assert_eq!(strength, small(0.75));
    let (regime, strength) = RegimeComputer::compute(&regime_figures(0.0, 50.0, -7.0));
    assert_eq!(regime, RegimeLabel::Trending);
    assert_eq!(strength, small(1.0));
    assert_eq!(RegimeLabel::default(), RegimeLabel::Ranging);
}

#[test]
fn a_label_reads_back_from_its_feature() {
    let number = |x: f32| {
        let mut fv = FeatureVector::new(SymbolId::from_raw(0), 1);
        fv.set(FeatureIndex::Regime, small(x));
        FeatureEngine::compute_snapshot(&fv).regime
    };
    for x in [0.0, 0.99, -0.5, 1.0, 1.99, 2.0, -1.0, 7.5, f32::NAN, f32::INFINITY] {
        let expected = match x as i32 {
            0 => RegimeLabel::Ranging,
            1 => RegimeLabel::Trending,
            _ => RegimeLabel::Volatile,
        };
        assert_eq!(number(x), expected, "{}", x);
    }
}

#[test]
fn the_spread_is_cut_to_its_bounds() {
    let mut wm = WindowManager::new("AAPL", sizes());
    let mut tick = make_tick(SymbolId::from_raw(0), 1000, 150.0, 0.05);
    for (given, shown) in [(9999.0, 500.0), (-3.0, 0.0), (f64::NAN, 500.0), (7.0, 7.0)] {
        tick.spread_bps = num(given);
        let fv = compute(&mut wm, &tick);
        assert_eq!(fv.get(FeatureIndex::SpreadBps), small(shown));
    }
}

#[test]
fn an_empty_book_is_balanced() {
    let mut tick = make_tick(SymbolId::from_raw(0), 1, 1.0, 0.1);
    let x = small(0.5);
    assert_eq!(MicrostructureComputer::compute_order_flow_imbalance(&tick, x), x);
    tick.bid_size = 0;
    tick.ask_size = 0;
    assert_eq!(
        MicrostructureComputer::compute_order_flow_imbalance(&tick, x),
        small(0.0)
    );
}

#[test]
fn sums_that_are_not_finite_have_no_mean() {
    let mut w: RollingWindow<Real> = RollingWindow::new(2);
    assert_eq!(w.mean(num(1.0), num(1.0)), num(0.0));
    w.push(num(f64::MAX));
    assert_eq!(w.std_dev(num(1.0), num(1.0)), num(0.0));
    w.push(num(f64::MAX));
    assert_eq!(mean(&w), 0.0);
    assert_eq!(w.std_dev(num(f64::INFINITY), num(9.0)), num(0.0));
    assert_eq!(w.std_dev(num(4.0), num(2.0)), num(2.0));
}

#[test]
fn features_have_places_and_names() {
    assert_eq!(FeatureIndex::MidPrice.index(), 0);
    assert_eq!(FeatureIndex::Confidence.index(), 16);
    assert_eq!(FeatureVector::feature_name(FeatureIndex::OrderFlowImbalance), "order_flow_imbalance");
    assert_eq!(FeatureVector::feature_name(FeatureIndex::Ema50), "ema_50");
}

#[test]
fn without_losses_the_strength_is_a_hundred() {
    assert_eq!(RSIState::strength(num(0.0), num(f64::NAN)), num(100.0));
    assert_eq!(RSIState::strength(num(-0.0), num(1.0)), num(100.0));
    assert_eq!(RSIState::strength(num(2.0), num(1.0)), num(1.0));
}

use unified_trading::portfolio::{
    fill_kind, signed_quantity, FillKind, FillValues, PortfolioManager, PortfolioSums, Position,
};
use unified_trading::quantity::Real;
use unified_trading::rate_limiter::{ConsumeFigures, RateLimiter, TokenBucket};

fn num(x: f64) -> Real {
    Real::from_bits(x.to_bits())
}

fn float(x: Real) -> f64 {
    f64::from_bits(x.bits)
}

/// The equity with `changed` in place of the position in its symbol.
fn equity_with(pm: &PortfolioManager, changed: &Position) -> Real {
    let mut e = float(pm.initial_equity);
    let others = pm.get_all_positions().into_iter().filter(|p| p.symbol != changed.symbol);
    for p in others.chain(std::iter::once(changed)) {
        e += float(p.net_position) * (float(p.current_price) - float(p.avg_entry_price));
        e += float(p.realized_pnl);
    }
    num(e)
}

fn fill(pm: &mut PortfolioManager, symbol: &str, price: f64, qty: f64, buy: bool) {
    let p = match pm.get_position(symbol) {
        Some(p) => p.clone(),
        None => Position::new(symbol),
    };
    let net = float(p.net_position);
    let avg = float(p.avg_entry_price);
    let delta = float(signed_quantity(num(qty), buy));
    let closed = delta.abs().min(net.abs());
    let traded = if buy { float(p.total_bought) } else { float(p.total_sold) };
    let values = FillValues {
        avg_entry_price: num((avg * net.abs() + price * delta.abs()) / (net.abs() + delta.abs())),
        realized_pnl: num(float(p.realized_pnl) + closed * (price - avg) * net.signum()),
        net_position: num(net + delta),
        traded: num(traded + price * qty),
    };
    let after = pm.position_after(symbol, num(price), num(qty), buy, values);
    let equity = equity_with(pm, &after);
    pm.on_fill(symbol, num(price), num(qty), buy, values, equity);
}

fn price(pm: &mut PortfolioManager, symbol: &str, price: f64) {
    let mut after = pm.get_position(symbol).unwrap().clone();
    after.current_price = num(price);
    let equity = equity_with(pm, &after);
    pm.update_price(symbol, num(price), equity);
}

fn sums(pm: &PortfolioManager) -> PortfolioSums {
    let (mut gross, mut net, mut unrealized, mut realized) = (0.0, 0.0, 0.0, 0.0);
    for p in pm.get_all_positions() {
        gross += float(p.net_position).abs() * float(p.current_price);
        net += float(p.net_position) * float(p.current_price);
        unrealized += unrealized_pnl(p);
        realized += float(p.realized_pnl);
    }
    let peak = float(pm.peak_equity);
    let current = float(pm.current_equity);
    PortfolioSums {
        gross: num(gross),
        net: num(net),
        unrealized: num(unrealized),
        realized: num(realized),
        drawdown: num((peak - current) / peak * 100.0),
        leverage: num(gross / current),
    }
}

fn unrealized_pnl(p: &Position) -> f64 {
    let computed = (float(p.current_price) - float(p.avg_entry_price)) * float(p.net_position);
    float(p.unrealized_pnl(num(computed)))
}

fn portfolio() -> PortfolioManager {
    PortfolioManager::new(num(100_000.0), num(0.001))
}

#[test]
fn test_initial_state() {
    let pm = portfolio();
    assert!(pm.get_position("AAPL").is_none());
    assert_eq!(float(sums(&pm).unrealized), 0.0);
    assert_eq!(pm.position_count(), 0);
}

#[test]
fn test_buy_creates_position() {
    let mut pm = portfolio();
    fill(&mut pm, "AAPL", 150.0, 100.0, true);
    let pos = pm.get_position("AAPL").unwrap();
    assert_eq!(pos.net_position, num(100.0));
    assert!((float(pos.avg_entry_price) - 150.0).abs() < 0.01);
    assert!(!pos.is_flat());
}

#[test]
fn test_sell_reduces_position() {
    let mut pm = portfolio();
    fill(&mut pm, "AAPL", 150.0, 100.0, true);
    fill(&mut pm, "AAPL", 160.0, 50.0, false);
    let pos = pm.get_position("AAPL").unwrap();
    assert_eq!(pos.net_position, num(50.0));
    assert!(float(pos.realized_pnl) > 0.0);
}

#[test]
fn test_full_round_trip() {
    let mut pm = portfolio();
    fill(&mut pm, "AAPL", 150.0, 100.0, true);
    fill(&mut pm, "AAPL", 160.0, 100.0, false);
    let pos = pm.get_position("AAPL").unwrap();
    assert!(pos.is_flat());
    assert_eq!(pos.realized_pnl, num(1000.0));
    assert_eq!(pos.avg_entry_price, num(0.0));
    assert_eq!(pm.get_metrics(sums(&pm)).current_equity, num(101_000.0));
    assert_eq!(pm.get_metrics(sums(&pm)).peak_equity, num(101_000.0));
    assert_eq!(pm.position_count(), 0);
}

#[test]
fn test_unrealized_pnl() {
    let mut pm = portfolio();
    fill(&mut pm, "AAPL", 150.0, 100.0, true);
    price(&mut pm, "AAPL", 155.0);
    let pos = pm.get_position("AAPL").unwrap();
    assert_eq!(unrealized_pnl(pos), 500.0);
}

#[test]
fn test_portfolio_metrics() {
    let mut pm = portfolio();
    fill(&mut pm, "AAPL", 150.0, 10.0, true);
    let metrics = pm.get_metrics(sums(&pm));
    assert!(float(metrics.gross_exposure) > 0.0);
    assert!(float(metrics.leverage) >= 0.0);
}

#[test]
fn test_drawdown() {
    let mut pm = portfolio();
    fill(&mut pm, "AAPL", 150.0, 100.0, true);
    price(&mut pm, "AAPL", 140.0);
    let metrics = pm.get_metrics(sums(&pm));
    assert!(float(metrics.drawdown_pct) > 0.0);
}

#[test]
fn test_net_position() {
    let mut pm = portfolio();
    fill(&mut pm, "AAPL", 150.0, 10.0, true);
    fill(&mut pm, "AAPL", 152.0, 5.0, true);
    assert_eq!(pm.net_position("AAPL"), num(15.0));
    assert_eq!(pm.net_position("MSFT"), num(0.0));
}

#[test]
fn the_peak_never_falls() {
    let mut pm = PortfolioManager::default();
    for e in [100_500.0, 99_000.0, 100_400.0, 101_000.0] {
        let before = float(pm.peak_equity);
        pm.update_price("A", num(1.0), num(e));
        assert_eq!(pm.current_equity, num(e));
        assert!(float(pm.peak_equity) >= before && float(pm.peak_equity) >= e);
    }
    assert_eq!(pm.peak_equity, num(101_000.0));
}

#[test]
fn a_change_adds_or_closes() {
    assert_eq!(fill_kind(num(0.0), num(1.0)), FillKind::Adding);
    assert_eq!(fill_kind(num(-0.0), num(-1.0)), FillKind::Adding);
    assert_eq!(fill_kind(num(5.0), num(-1.0)), FillKind::Closing);
    assert_eq!(fill_kind(num(5.0), num(0.0)), FillKind::Closing);
    assert_eq!(signed_quantity(num(2.0), false), num(-2.0));
}

#[test]
fn a_snapshot_holds_all_positions() {
    let mut pm = portfolio();
    fill(&mut pm, "A", 1.0, 2.0, true);
    fill(&mut pm, "B", 1.0, 3.0, false);
    let s = pm.get_risk_snapshot(sums(&pm));
    assert_eq!(s.net_positions.get("A"), Some(&num(2.0)));
    assert_eq!(s.net_positions.get("B"), Some(&num(-3.0)));
    pm.set_avg_entry_price("A", num(9.0), num(99_984.0));
    assert_eq!(pm.current_equity, num(99_984.0));
    assert_eq!(pm.peak_equity, num(100_000.0));
    assert_eq!(pm.get_position("A").unwrap().avg_entry_price, num(9.0));
    assert_eq!(pm.position_count(), 2);
}

const NOW: u64 = 1_000_000_000;

fn grown(b: &TokenBucket, now: u64) -> f64 {
    let secs = b.elapsed_ns(now) as f64 / 1_000_000_000.0;
    float(b.tokens) + secs * float(b.refill_rate)
}

fn bucket_consume(b: &mut TokenBucket, count: f64, now: u64) -> bool {
    let g = grown(b, now);
    let capped = g.min(float(b.max_tokens));
    b.try_consume(num(count), num(g), num(capped - count), now)
}

fn consume(l: &mut RateLimiter, symbol: &str, count: f64) -> bool {
    let g = grown(&l.global, NOW);
    let left = g.min(float(l.global.max_tokens)) - count;
    let b = l.bucket_of(symbol, NOW);
    let s = grown(&b, NOW);
    let f = ConsumeFigures {
        global_grown: num(g),
        global_left: num(left),
        global_refunded: num(left + count),
        symbol_grown: num(s),
        symbol_left: num(s.min(float(b.max_tokens)) - count),
    };
    l.try_consume(symbol, num(count), f, NOW)
}

fn percent(b: &TokenBucket) -> Real {
    num(float(b.tokens) / float(b.max_tokens) * 100.0)
}

#[test]
fn test_token_bucket_consume() {
    let mut bucket = TokenBucket::new(num(10.0), num(10.0), NOW);
    assert!(bucket_consume(&mut bucket, 5.0, NOW));
    assert!((float(bucket.tokens_available()) - 5.0).abs() < 0.1);
}

#[test]
fn test_token_bucket_exhaust() {
    let mut bucket = TokenBucket::new(num(5.0), num(1.0), NOW);
    assert!(bucket_consume(&mut bucket, 5.0, NOW));
    assert!(!bucket_consume(&mut bucket, 1.0, NOW));
}

#[test]
fn test_rate_limiter_global() {
    let mut limiter = RateLimiter::new(num(5.0), num(10.0), NOW);
    assert!(consume(&mut limiter, "AAPL", 1.0));
    assert!(consume(&mut limiter, "MSFT", 1.0));
    assert!(consume(&mut limiter, "AAPL", 3.0));
    assert!(!consume(&mut limiter, "AAPL", 1.0));
}

#[test]
fn test_rate_limiter_per_symbol() {
    let mut limiter = RateLimiter::new(num(100.0), num(2.0), NOW);
    assert!(consume(&mut limiter, "AAPL", 1.0));
    assert!(consume(&mut limiter, "AAPL", 1.0));
    assert!(consume(&mut limiter, "MSFT", 1.0));
}

#[test]
fn test_rate_limiter_set_symbol_rate() {
    let mut limiter = RateLimiter::new(num(100.0), num(5.0), NOW);
    limiter.set_symbol_rate("AAPL", num(1.0), NOW);
    assert!(consume(&mut limiter, "AAPL", 1.0));
    assert!(!consume(&mut limiter, "AAPL", 1.0));
    assert!(consume(&mut limiter, "MSFT", 1.0));
    assert_eq!(limiter.global_tokens_remaining(), num(98.0));
}

#[test]
fn test_token_bucket_percent_remaining() {
    let mut bucket = TokenBucket::new(num(10.0), num(10.0), NOW);
    bucket_consume(&mut bucket, 5.0, NOW);
    let pct = float(bucket.percent_remaining(percent(&bucket)));
    assert!((pct - 50.0).abs() < 1.0);
}

#[test]
fn test_token_bucket_is_near_limit() {
    let mut bucket = TokenBucket::new(num(10.0), num(10.0), NOW);
    bucket_consume(&mut bucket, 9.0, NOW);
    assert!(bucket.is_near_limit(percent(&bucket), num(20.0)));
}

#[test]
fn a_bucket_is_never_overfull() {
    let mut bucket = TokenBucket::new(num(10.0), num(10.0), NOW);
    bucket_consume(&mut bucket, 4.0, NOW);
    assert!(bucket_consume(&mut bucket, 0.0, NOW + 3_600_000_000_000));
    assert_eq!(bucket.tokens, num(10.0));
    let mut empty = TokenBucket::new(num(0.0), num(0.0), NOW);
    assert_eq!(empty.percent_remaining(num(f64::NAN)), num(0.0));
    assert!(!empty.take(num(1.0), num(-1.0)));
}

#[test]
fn back_pressure_is_told_by_symbol() {
    let mut limiter = RateLimiter::new(num(100.0), num(10.0), NOW);
    assert!(limiter.get_back_pressure_status("AAPL", num(0.0), num(20.0)).is_none());
    assert!(!limiter.is_near_limit("AAPL", num(0.0), num(20.0)));
    consume(&mut limiter, "AAPL", 9.0);
    let p = percent(&limiter.bucket_of("AAPL", NOW));
    assert_eq!(
        limiter.get_back_pressure_status("AAPL", p, num(20.0)),
        Some((num(1.0), num(10.0), true))
    );
    assert!(limiter.is_near_limit("AAPL", p, num(20.0)));
}

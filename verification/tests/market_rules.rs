use std::time::Duration;
use tickpulse::cache::policy::{get_ttl, get_ttl_with_market_status};
use tickpulse::datasource::{
    CircuitBreaker, CircuitState, FailoverAction, SourceFailover, SourceOutcome,
};
use tickpulse::limit::board_type::BoardType;
use tickpulse::limit::{
    effective_trading_seconds, get_limit_rate_percent, limit_down_price_cents,
    limit_up_price_cents, TradeDate,
};

#[test]
fn test_circuit_breaker_closed() {
    let mut cb = CircuitBreaker::new(3, Duration::from_secs(60));
    assert!(cb.is_available());
    assert_eq!(cb.state(), CircuitState::Closed);
}

#[test]
fn test_circuit_breaker_opens() {
    let mut cb = CircuitBreaker::new(3, Duration::from_secs(60));
    cb.record_failure();
    cb.record_failure();
    cb.record_failure();
    assert_eq!(cb.state(), CircuitState::Open);
    assert!(!cb.is_available());
}

#[test]
fn test_circuit_breaker_success_resets() {
    let mut cb = CircuitBreaker::new(3, Duration::from_secs(60));
    cb.record_failure();
    cb.record_failure();
    cb.record_success();
    assert_eq!(cb.state(), CircuitState::Closed);
}

#[test]
fn circuit_breaker_half_opens_after_timeout() {
    let mut cb = CircuitBreaker::new(1, Duration::from_secs(0));
    cb.record_failure();
    assert_eq!(cb.state(), CircuitState::Open);
    assert!(cb.is_available());
    assert_eq!(cb.state(), CircuitState::HalfOpen);
    let mut cb = CircuitBreaker::new(1, Duration::from_secs(60));
    cb.record_failure();
    assert!(!cb.is_available_after(None));
    assert!(!cb.is_available_after(Some(59_999_999_999)));
    assert_eq!(cb.state(), CircuitState::Open);
    assert!(cb.is_available_after(Some(60_000_000_000)));
    assert_eq!(cb.state(), CircuitState::HalfOpen);
}

#[test]
fn test_board_type_from_code() {
    assert_eq!(BoardType::from_code("600000"), BoardType::MainBoardSH);
    assert_eq!(BoardType::from_code("000001"), BoardType::MainBoardSZ);
    assert_eq!(BoardType::from_code("300001"), BoardType::ChiNext);
    assert_eq!(BoardType::from_code("688001"), BoardType::StarMarket);
    assert_eq!(BoardType::from_code("830001"), BoardType::BSE);
}

#[test]
fn test_limit_rate() {
    assert_eq!(BoardType::MainBoardSH.limit_rate_percent(false), 10);
    assert_eq!(BoardType::ChiNext.limit_rate_percent(false), 20);
    assert_eq!(BoardType::StarMarket.limit_rate_percent(false), 20);
    assert_eq!(BoardType::BSE.limit_rate_percent(false), 30);
    assert_eq!(BoardType::MainBoardSH.limit_rate_percent(true), 5);
}

#[test]
fn test_limit_up_price() {
    assert_eq!(limit_up_price_cents(1000, 10), 1100);
    assert_eq!(limit_up_price_cents(1000, 20), 1200);
}

#[test]
fn test_limit_down_price() {
    assert_eq!(limit_down_price_cents(1000, 10), 900);
    assert_eq!(limit_down_price_cents(1000, 20), 800);
}

#[test]
fn test_limit_up_rounding() {
    // 10.35 * 1.1 = 11.385 -> 11.39
    assert_eq!(limit_up_price_cents(1035, 10), 1139);
}

#[test]
fn test_limit_down_rounding() {
    // 10.35 * 0.9 = 9.315 -> 9.31
    assert_eq!(limit_down_price_cents(1035, 10), 931);
}

#[test]
fn test_get_limit_rate() {
    let date = TradeDate { year: 2024, month: 6, day: 1 };
    assert_eq!(get_limit_rate_percent("600000", "浦发银行", date), 10);
    assert_eq!(get_limit_rate_percent("300001", "特锐德", date), 20);
    assert_eq!(get_limit_rate_percent("688001", "华兴源创", date), 20);
    assert_eq!(get_limit_rate_percent("600000", "ST某某", date), 5);
    assert_eq!(get_limit_rate_percent("830001", "某北交所", date), 30);
    let old_date = TradeDate { year: 2020, month: 6, day: 1 };
    assert_eq!(get_limit_rate_percent("300001", "特锐德", old_date), 10);
}

#[test]
fn chinext_switch_day_uses_new_rate() {
    assert_eq!(get_limit_rate_percent("300750", "宁德时代", TradeDate { year: 2020, month: 8, day: 23 }), 10);
    assert_eq!(get_limit_rate_percent("300750", "宁德时代", TradeDate { year: 2020, month: 8, day: 24 }), 20);
}

#[test]
fn limit_down_beyond_full_rate_goes_negative() {
    assert_eq!(limit_down_price_cents(1000, 100), 0);
    assert_eq!(limit_down_price_cents(1001, 101), -11);
}

#[test]
fn effective_seconds_skip_lunch() {
    // 09:30 -> 10:30
    assert_eq!(effective_trading_seconds(34200, 37800), 3600);
    // 10:30 -> 14:00 crosses the lunch break
    assert_eq!(effective_trading_seconds(37800, 50400), 12600 - 5400);
    // 13:30 -> 14:00
    assert_eq!(effective_trading_seconds(48600, 50400), 1800);
}

#[test]
fn cache_ttl_by_period() {
    assert_eq!(get_ttl("1m"), 60);
    assert_eq!(get_ttl("15m"), 300);
    assert_eq!(get_ttl("60m"), 600);
    assert_eq!(get_ttl("day"), 86400);
    assert_eq!(get_ttl("week"), 604800);
    assert_eq!(get_ttl("month"), 2592000);
    assert_eq!(get_ttl("quarter"), 86400);
    assert_eq!(get_ttl_with_market_status("day", true), 300);
    assert_eq!(get_ttl_with_market_status("day", false), 86400);
    assert_eq!(get_ttl_with_market_status("1m", true), 60);
}

#[test]
fn source_failover_walk() {
    let (mut w, a) = SourceFailover::start(3);
    assert_eq!(a, FailoverAction::Consider(0));
    assert_eq!(w.on_outcome(SourceOutcome::Skipped), FailoverAction::Consider(1));
    assert_eq!(w.on_outcome(SourceOutcome::Failed), FailoverAction::Consider(2));
    assert_eq!(w.on_outcome(SourceOutcome::Failed), FailoverAction::GiveUp);
    assert!(w.finished);

    let (mut w, _) = SourceFailover::start(2);
    assert_eq!(w.on_outcome(SourceOutcome::Succeeded), FailoverAction::Deliver);
    assert_eq!(w.current, 0);

    let (w, a) = SourceFailover::start(0);
    assert_eq!(a, FailoverAction::GiveUp);
    assert!(w.finished);
}

#[test]
fn circuit_breaker_keeps_timeout_in_nanos() {
    let cb = CircuitBreaker::new(3, Duration::from_millis(1500));
    assert_eq!(cb.reset_timeout_nanos, 1_500_000_000);
    assert_eq!(cb.threshold, 3);
}

#[test]
fn test_circuit_breaker_half_open() {
    let mut cb = CircuitBreaker::new(3, Duration::from_millis(100));
    cb.record_failure();
    cb.record_failure();
    cb.record_failure();
    assert_eq!(cb.state(), CircuitState::Open);
    assert!(!cb.is_available());

    // once the timeout has passed the breaker lets a trial through (half-open)
    let start = std::time::Instant::now();
    while start.elapsed() < Duration::from_millis(150) {}
    assert!(cb.is_available());
    assert_eq!(cb.state(), CircuitState::HalfOpen);
}

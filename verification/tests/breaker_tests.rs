use rinha_de_backend::breaker::{BreakerConfig, BreakerState, CircuitBreaker};

const NOW: i64 = 1_700_000_000_000;

fn config() -> BreakerConfig {
    BreakerConfig {
        failure_threshold_pct: 50,
        min_throughput: 5,
        probe_quota: 2,
        cooldown_ms: 3_000,
    }
}

#[test]
fn test_breaker_starts_closed() {
    let b = CircuitBreaker::new(config());
    assert_eq!(b.current_state(NOW), BreakerState::Closed);
}

#[test]
fn test_breaker_trips_at_failure_rate_over_min_throughput() {
    let mut b = CircuitBreaker::new(config());
    // Four failures are not enough samples.
    for _ in 0..4 {
        b.record_failure(NOW);
        assert_eq!(b.current_state(NOW), BreakerState::Closed);
    }
    // The fifth outcome reaches min_throughput with a 100% failure rate.
    b.record_failure(NOW);
    assert_eq!(b.current_state(NOW), BreakerState::Open);
}

#[test]
fn test_breaker_stays_closed_below_threshold() {
    let mut b = CircuitBreaker::new(config());
    // 2 failures out of 6 outcomes: a third, under the 50% threshold.
    for _ in 0..4 {
        b.record_success(NOW);
    }
    b.record_failure(NOW);
    b.record_failure(NOW);
    assert_eq!(b.current_state(NOW), BreakerState::Closed);
}

#[test]
fn test_breaker_half_opens_after_cooldown() {
    let mut b = CircuitBreaker::new(config());
    b.force_open(NOW);
    assert_eq!(b.current_state(NOW), BreakerState::Open);
    assert_eq!(b.current_state(NOW + 2_999), BreakerState::Open);
    assert_eq!(b.current_state(NOW + 3_000), BreakerState::HalfOpen);
}

#[test]
fn test_breaker_closes_after_probe_quota_successes() {
    let mut b = CircuitBreaker::new(config());
    b.force_open(NOW);
    let later = NOW + 3_000;
    b.record_success(later);
    assert_eq!(b.current_state(later), BreakerState::HalfOpen);
    b.record_success(later);
    assert_eq!(b.current_state(later), BreakerState::Closed);
}

#[test]
fn test_breaker_reopens_on_half_open_failure() {
    let mut b = CircuitBreaker::new(config());
    b.force_open(NOW);
    let later = NOW + 3_000;
    b.record_success(later);
    assert_eq!(b.current_state(later), BreakerState::HalfOpen);
    b.record_failure(later);
    assert_eq!(b.current_state(later), BreakerState::Open);
    // The cooldown restarts from the new opening.
    assert_eq!(b.current_state(later + 2_999), BreakerState::Open);
    assert_eq!(b.current_state(later + 3_000), BreakerState::HalfOpen);
}

#[test]
fn test_open_breaker_records_nothing() {
    let mut b = CircuitBreaker::new(config());
    b.force_open(NOW);
    let before = b;
    b.record_failure(NOW + 1);
    assert_eq!(b, before);
    b.record_success(NOW + 1);
    assert_eq!(b, before);
}

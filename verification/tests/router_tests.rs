use rinha_de_backend::breaker::BreakerState;
use rinha_de_backend::health_status::HealthStatus;
use rinha_de_backend::payment::ProcessorKind;
use rinha_de_backend::payment_processor::{PaymentProcessor, PaymentProcessorKey};
use rinha_de_backend::router::InMemoryPaymentRouter;

const NOW: i64 = 1_700_000_000_000;

fn entry(name: &str, url: &str, health: HealthStatus, min_response_time: u64) -> PaymentProcessor {
    PaymentProcessor {
        key: PaymentProcessorKey::new(name.to_string(), url.to_string()),
        health,
        min_response_time,
    }
}

#[test]
fn test_get_processor_for_payment_default_healthy() {
    let mut router = InMemoryPaymentRouter::default();
    router.update_processor_health(entry(
        "default",
        "http://default.com",
        HealthStatus::Healthy,
        50,
    ));

    let kind = router.get_processor_for_payment(NOW).unwrap();
    assert_eq!(kind, ProcessorKind::Default);
    assert_eq!(router.processor_key(kind).name, "default");
    assert_eq!(router.breaker(kind).current_state(NOW), BreakerState::Closed);
}

#[test]
fn test_get_processor_for_payment_default_unhealthy_but_breaker_closed_waits() {
    let mut router = InMemoryPaymentRouter::default();
    router.update_processor_health(entry(
        "default",
        "http://default.com",
        HealthStatus::Failing,
        50,
    ));
    router.update_processor_health(entry(
        "fallback",
        "http://fallback.com",
        HealthStatus::Healthy,
        50,
    ));

    // No processor: the default must recover, its breaker is not open.
    assert!(router.get_processor_for_payment(NOW).is_none());
}

#[test]
fn test_get_processor_for_payment_default_slow_but_breaker_closed_waits() {
    let mut router = InMemoryPaymentRouter::default();
    router.update_processor_health(entry(
        "default",
        "http://default.com",
        HealthStatus::Healthy,
        150,
    ));
    router.update_processor_health(entry(
        "fallback",
        "http://fallback.com",
        HealthStatus::Healthy,
        50,
    ));

    assert!(router.get_processor_for_payment(NOW).is_none());
}

#[test]
fn test_get_processor_for_payment_default_circuit_open_uses_fallback() {
    let mut router = InMemoryPaymentRouter::default();
    router.update_processor_health(entry(
        "default",
        "http://default.com",
        HealthStatus::Healthy,
        50,
    ));
    router.default_breaker.force_open(NOW);
    router.update_processor_health(entry(
        "fallback",
        "http://fallback.com",
        HealthStatus::Healthy,
        50,
    ));

    let kind = router.get_processor_for_payment(NOW).unwrap();
    assert_eq!(kind, ProcessorKind::Fallback);
    assert_eq!(router.processor_key(kind).name, "fallback");
    assert_eq!(router.breaker(kind).current_state(NOW), BreakerState::Closed);
}

#[test]
fn test_get_processor_for_payment_default_circuit_open_fallback_unhealthy() {
    let mut router = InMemoryPaymentRouter::default();
    router.update_processor_health(entry(
        "default",
        "http://default.com",
        HealthStatus::Healthy,
        50,
    ));
    router.default_breaker.force_open(NOW);
    router.update_processor_health(entry(
        "fallback",
        "http://fallback.com",
        HealthStatus::Failing,
        50,
    ));

    assert!(router.get_processor_for_payment(NOW).is_none());
}

#[test]
fn test_get_processor_for_payment_no_processors() {
    let router = InMemoryPaymentRouter::default();
    assert!(router.get_processor_for_payment(NOW).is_none());
}

#[test]
fn test_update_processor_health() {
    let mut router = InMemoryPaymentRouter::default();
    router.update_processor_health(entry(
        "default",
        "http://test.com",
        HealthStatus::Healthy,
        100,
    ));

    assert_eq!(router.default_processor.key.name, "default");
    assert_eq!(router.default_processor.key.url, "http://test.com");
    assert_eq!(router.default_processor.health, HealthStatus::Healthy);
    assert_eq!(router.default_processor.min_response_time, 100);
}

#[test]
fn test_update_processor_health_unknown_name_is_ignored() {
    let mut router = InMemoryPaymentRouter::default();
    let before_default = router.default_processor.clone();
    let before_fallback = router.fallback_processor.clone();
    router.update_processor_health(entry(
        "tertiary",
        "http://elsewhere.com",
        HealthStatus::Healthy,
        10,
    ));
    assert_eq!(router.default_processor.key.url, before_default.key.url);
    assert_eq!(router.fallback_processor.key.url, before_fallback.key.url);
    assert_eq!(router.default_processor.health, HealthStatus::Failing);
}

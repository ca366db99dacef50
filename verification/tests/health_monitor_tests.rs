use rinha_de_backend::health_monitor::{
    interpret_probe, update_processor_from_probe, ProbeEffect, ProbeResponse,
};
use rinha_de_backend::health_status::HealthStatus;
use rinha_de_backend::payment::ProcessorKind;
use rinha_de_backend::router::InMemoryPaymentRouter;

fn probe(status: u16, body: &str) -> ProbeResponse {
    ProbeResponse::Response {
        status,
        body: body.to_string(),
    }
}

#[test]
fn test_healthy_probe_sets_reported_values() {
    // The JSON body is really parsed: a healthy report with its time.
    let e = interpret_probe(&probe(200, "{\"failing\": false, \"minResponseTime\": 57}"));
    assert_eq!(
        e,
        ProbeEffect::SetEntry {
            health: HealthStatus::Healthy,
            min_response_time_ms: 57
        }
    );
}

#[test]
fn test_failing_probe_sets_failing() {
    let e = interpret_probe(&probe(200, "{\"failing\": true, \"minResponseTime\": 3}"));
    assert_eq!(
        e,
        ProbeEffect::SetEntry {
            health: HealthStatus::Failing,
            min_response_time_ms: 3
        }
    );
}

#[test]
fn test_missing_fields_default_to_failing_and_zero() {
    let e = interpret_probe(&probe(200, "{}"));
    assert_eq!(
        e,
        ProbeEffect::SetEntry {
            health: HealthStatus::Failing,
            min_response_time_ms: 0
        }
    );
}

#[test]
fn test_unparseable_body_leaves_entry_unchanged() {
    let e = interpret_probe(&probe(200, "not json at all"));
    assert_eq!(e, ProbeEffect::Leave);
}

#[test]
fn test_http_error_marks_processor_failing() {
    let e = interpret_probe(&probe(503, "{\"failing\": false, \"minResponseTime\": 5}"));
    assert_eq!(
        e,
        ProbeEffect::SetEntry {
            health: HealthStatus::Failing,
            min_response_time_ms: 0
        }
    );
}

#[test]
fn test_transport_failure_marks_processor_failing() {
    let e = interpret_probe(&ProbeResponse::TransportFailure);
    assert_eq!(
        e,
        ProbeEffect::SetEntry {
            health: HealthStatus::Failing,
            min_response_time_ms: 0
        }
    );
}

#[test]
fn test_probe_updates_only_the_probed_entry() {
    let mut router = InMemoryPaymentRouter::default();
    update_processor_from_probe(
        &mut router,
        ProcessorKind::Default,
        &probe(200, "{\"failing\": false, \"minResponseTime\": 12}"),
    );
    assert_eq!(router.default_processor.health, HealthStatus::Healthy);
    assert_eq!(router.default_processor.min_response_time, 12);
    assert_eq!(router.fallback_processor.health, HealthStatus::Failing);
    // The key survives every probe.
    assert_eq!(router.default_processor.key.name, "default");

    update_processor_from_probe(&mut router, ProcessorKind::Default, &probe(200, "garbage"));
    assert_eq!(router.default_processor.health, HealthStatus::Healthy);
    assert_eq!(router.default_processor.min_response_time, 12);
}

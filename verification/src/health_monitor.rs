//! Interpreting a processor's health probe.
//!
//! The monitor task GETs `{base_url}/payments/service-health` every five
//! seconds; that HTTP round trip is I/O and lives with the application.
//! What comes back — a status and a body, or a transport failure — is
//! interpreted and applied to the registry here, verified: a parseable 2xx
//! body sets the entry to what the processor reported, an unparseable 2xx
//! body leaves the entry alone, anything else marks the processor failing
//! with a zero response time.

use vstd::prelude::*;

use crate::health_status::HealthStatus;
use crate::payment::ProcessorKind;
use crate::payment_processor::PaymentProcessor;
use crate::router::InMemoryPaymentRouter;

verus! {

/// What one probe of `/payments/service-health` yielded on the wire.
#[derive(Clone, Debug)]
pub enum ProbeResponse {
    /// The processor answered `status` with `body`.
    Response { status: u16, body: String },
    /// The request never completed.
    TransportFailure,
}

/// How the registry entry of the probed processor changes.
#[derive(Clone, Copy, Debug, PartialEq, Eq, Structural)]
pub enum ProbeEffect {
    SetEntry { health: HealthStatus, min_response_time_ms: u64 },
    Leave,
}

/// The `failing` and `minResponseTime` fields of a health body, as
/// `serde_json` reads them: the outer `Option` is whether the body parses
/// as JSON at all, the inner two whether each field is present with the
/// expected type.
pub uninterp spec fn parsed_health_fields(body: Seq<char>) -> Option<(Option<bool>, Option<i64>)>;

/// Relies on `serde_json::from_str::<Value>` (with the `Value` accessors
/// `as_bool` and `as_i64`): parsing depends on the body text alone.
#[verifier::external_body]
fn parse_health_body(body: &str) -> (r: Option<(Option<bool>, Option<i64>)>)
    ensures
        r == parsed_health_fields(body@),
{
    match serde_json::from_str::<serde_json::Value>(body) {
        Ok(v) => Some((v["failing"].as_bool(), v["minResponseTime"].as_i64())),
        Err(_) => None,
    }
}

/// A missing or malformed `failing` field is read as failing; a missing or
/// negative `minResponseTime` is read as 0.
pub open spec fn spec_probe_effect(response: ProbeResponse) -> ProbeEffect {
    match response {
        ProbeResponse::Response { status, body } => {
            if 200 <= status && status < 300 {
                match parsed_health_fields(body@) {
                    None => ProbeEffect::Leave,
                    Some((failing, min_response_time)) => ProbeEffect::SetEntry {
                        health: if failing == Some(false) {
                            HealthStatus::Healthy
                        } else {
                            HealthStatus::Failing
                        },
                        min_response_time_ms: match min_response_time {
                            Some(v) => if v >= 0 {
                                v as u64
                            } else {
                                0
                            },
                            None => 0,
                        },
                    },
                }
            } else {
                ProbeEffect::SetEntry { health: HealthStatus::Failing, min_response_time_ms: 0 }
            }
        },
        ProbeResponse::TransportFailure => ProbeEffect::SetEntry {
            health: HealthStatus::Failing,
            min_response_time_ms: 0,
        },
    }
}

pub fn interpret_probe(response: &ProbeResponse) -> (e: ProbeEffect)
    ensures
        e == spec_probe_effect(*response),
{
    match response {
        ProbeResponse::Response { status, body } => {
            if 200 <= *status && *status < 300 {
                match parse_health_body(body.as_str()) {
                    None => ProbeEffect::Leave,
                    Some((failing, min_response_time)) => {
                        let is_healthy = match failing {
                            Some(f) => !f,
                            None => false,
                        };
                        let mrt: u64 = match min_response_time {
                            Some(v) => if v >= 0 {
                                v as u64
                            } else {
                                0
                            },
                            None => 0,
                        };
                        ProbeEffect::SetEntry {
                            health: if is_healthy {
                                HealthStatus::Healthy
                            } else {
                                HealthStatus::Failing
                            },
                            min_response_time_ms: mrt,
                        }
                    },
                }
            } else {
                ProbeEffect::SetEntry { health: HealthStatus::Failing, min_response_time_ms: 0 }
            }
        },
        ProbeResponse::TransportFailure => ProbeEffect::SetEntry {
            health: HealthStatus::Failing,
            min_response_time_ms: 0,
        },
    }
}

/// One registry entry after an effect is applied to it: its key never
/// changes.
pub open spec fn spec_entry_after(entry: PaymentProcessor, e: ProbeEffect) -> PaymentProcessor {
    match e {
        ProbeEffect::SetEntry { health, min_response_time_ms } => PaymentProcessor {
            health,
            min_response_time: min_response_time_ms,
            ..entry
        },
        ProbeEffect::Leave => entry,
    }
}

/// The router after the entry of `kind` absorbs the probe; the other
/// entry and both breakers are untouched.
pub open spec fn spec_router_after_probe(
    router: InMemoryPaymentRouter,
    kind: ProcessorKind,
    response: ProbeResponse,
) -> InMemoryPaymentRouter {
    let e = spec_probe_effect(response);
    match kind {
        ProcessorKind::Default => InMemoryPaymentRouter {
            default_processor: spec_entry_after(router.default_processor, e),
            ..router
        },
        ProcessorKind::Fallback => InMemoryPaymentRouter {
            fallback_processor: spec_entry_after(router.fallback_processor, e),
            ..router
        },
    }
}

/// Apply one probe of `kind`'s health endpoint to the registry.
pub fn update_processor_from_probe(
    router: &mut InMemoryPaymentRouter,
    kind: ProcessorKind,
    response: &ProbeResponse,
)
    ensures
        *final(router) == spec_router_after_probe(*old(router), kind, *response),
        old(router).wf() ==> final(router).wf(),
{
    let effect = interpret_probe(response);
    match effect {
        ProbeEffect::Leave => {},
        ProbeEffect::SetEntry { health, min_response_time_ms } => {
            match kind {
                ProcessorKind::Default => {
                    router.default_processor.health = health;
                    router.default_processor.min_response_time = min_response_time_ms;
                },
                ProcessorKind::Fallback => {
                    router.fallback_processor.health = health;
                    router.fallback_processor.min_response_time = min_response_time_ms;
                },
            }
        },
    }
}

/// A probed entry after a whole run of probes, applied oldest first.
pub open spec fn spec_entry_after_probes(
    entry: PaymentProcessor,
    probes: Seq<ProbeResponse>,
) -> PaymentProcessor
    decreases probes.len(),
{
    if probes.len() == 0 {
        entry
    } else {
        spec_entry_after(
            spec_entry_after_probes(entry, probes.drop_last()),
            spec_probe_effect(probes.last()),
        )
    }
}

/// The entry reflects the most recent probe that took effect: a final
/// probe that reported values overrides the whole history with them, and
/// one that failed leaves the entry failing with a zero response time.
pub proof fn lemma_entry_reflects_last_effective_probe(
    entry: PaymentProcessor,
    probes: Seq<ProbeResponse>,
    last: ProbeResponse,
)
    ensures
        spec_probe_effect(last) matches ProbeEffect::SetEntry { health, min_response_time_ms } ==> {
            let after = spec_entry_after_probes(entry, probes.push(last));
            &&& after.health == health
            &&& after.min_response_time == min_response_time_ms
            &&& after.key == entry.key
        },
        spec_probe_effect(last) == ProbeEffect::Leave ==> spec_entry_after_probes(
            entry,
            probes.push(last),
        ) == spec_entry_after_probes(entry, probes),
{
    assert(probes.push(last).drop_last() =~= probes);
    lemma_probes_keep_key(entry, probes);
}

/// No run of probes changes which processor an entry names.
pub proof fn lemma_probes_keep_key(entry: PaymentProcessor, probes: Seq<ProbeResponse>)
    ensures
        spec_entry_after_probes(entry, probes).key == entry.key,
    decreases probes.len(),
{
    if probes.len() > 0 {
        lemma_probes_keep_key(entry, probes.drop_last());
    }
}

} // verus!

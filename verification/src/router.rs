//! The in-memory registry of both processors and the routing decision.
//!
//! The router holds the only process-wide mutable state: one entry per
//! processor (written by the health monitor, read by every worker) and one
//! circuit breaker per processor. `get_processor_for_payment` is the pure
//! decision of which processor a worker may dispatch to right now.

use vstd::prelude::*;

use crate::breaker::{BreakerConfig, BreakerState, CircuitBreaker};
use crate::health_status::HealthStatus;
use crate::payment::ProcessorKind;
use crate::payment_processor::{PaymentProcessor, PaymentProcessorKey};

verus! {

/// A processor slower than this (self-reported minimum response time, in
/// milliseconds) is not routed to.
pub const MAX_TOLERATED_RESPONSE_TIME_MS: u64 = 100;

pub const DEFAULT_FAILURE_THRESHOLD_PCT: u8 = 50;
pub const DEFAULT_MIN_THROUGHPUT: u64 = 5;
pub const DEFAULT_PROBE_QUOTA: u64 = 10;
pub const DEFAULT_COOLDOWN_MS: u64 = 3000;

/// The fallback breaker trips at a far lower failure rate and cools down
/// longer; the remaining parameters keep the build defaults.
pub const FALLBACK_FAILURE_THRESHOLD_PCT: u8 = 10;
pub const FALLBACK_COOLDOWN_MS: u64 = 10000;

/// `"default"` and `"fallback"` are distinct group names.
pub proof fn lemma_group_names_differ()
    ensures
        "default"@ != "fallback"@,
{
    reveal_strlit("default");
    reveal_strlit("fallback");
    assert("default"@.len() != "fallback"@.len());
}

#[derive(Clone, Debug)]
pub struct InMemoryPaymentRouter {
    pub default_processor: PaymentProcessor,
    pub fallback_processor: PaymentProcessor,
    pub default_breaker: CircuitBreaker,
    pub fallback_breaker: CircuitBreaker,
}

impl InMemoryPaymentRouter {
    /// The two slots keep their group names for the life of the process.
    pub open spec fn wf(self) -> bool {
        &&& self.default_processor.key.name@ == "default"@
        &&& self.fallback_processor.key.name@ == "fallback"@
    }

    pub open spec fn spec_default_config() -> BreakerConfig {
        BreakerConfig {
            failure_threshold_pct: DEFAULT_FAILURE_THRESHOLD_PCT,
            min_throughput: DEFAULT_MIN_THROUGHPUT,
            probe_quota: DEFAULT_PROBE_QUOTA,
            cooldown_ms: DEFAULT_COOLDOWN_MS,
        }
    }

    pub open spec fn spec_fallback_config() -> BreakerConfig {
        BreakerConfig {
            failure_threshold_pct: FALLBACK_FAILURE_THRESHOLD_PCT,
            min_throughput: DEFAULT_MIN_THROUGHPUT,
            probe_quota: DEFAULT_PROBE_QUOTA,
            cooldown_ms: FALLBACK_COOLDOWN_MS,
        }
    }

    /// A freshly built router: both processors present but assumed failing
    /// until the first probe, both breakers closed.
    pub open spec fn spec_initial(
        default_key: PaymentProcessorKey,
        fallback_key: PaymentProcessorKey,
    ) -> InMemoryPaymentRouter {
        InMemoryPaymentRouter {
            default_processor: PaymentProcessor {
                key: default_key,
                health: HealthStatus::Failing,
                min_response_time: 0,
            },
            fallback_processor: PaymentProcessor {
                key: fallback_key,
                health: HealthStatus::Failing,
                min_response_time: 0,
            },
            default_breaker: CircuitBreaker {
                config: Self::spec_default_config(),
                state: BreakerState::Closed,
                window_failures: 0,
                window_successes: 0,
                probe_successes: 0,
                opened_at_ms: 0,
            },
            fallback_breaker: CircuitBreaker {
                config: Self::spec_fallback_config(),
                state: BreakerState::Closed,
                window_failures: 0,
                window_successes: 0,
                probe_successes: 0,
                opened_at_ms: 0,
            },
        }
    }

    pub fn new(default_key: PaymentProcessorKey, fallback_key: PaymentProcessorKey) -> (r:
        InMemoryPaymentRouter)
        requires
            default_key.name@ == "default"@,
            fallback_key.name@ == "fallback"@,
        ensures
            r == Self::spec_initial(default_key, fallback_key),
            r.wf(),
    {
        InMemoryPaymentRouter {
            default_processor: PaymentProcessor {
                key: default_key,
                health: HealthStatus::Failing,
                min_response_time: 0,
            },
            fallback_processor: PaymentProcessor {
                key: fallback_key,
                health: HealthStatus::Failing,
                min_response_time: 0,
            },
            default_breaker: CircuitBreaker::new(
                BreakerConfig {
                    failure_threshold_pct: DEFAULT_FAILURE_THRESHOLD_PCT,
                    min_throughput: DEFAULT_MIN_THROUGHPUT,
                    probe_quota: DEFAULT_PROBE_QUOTA,
                    cooldown_ms: DEFAULT_COOLDOWN_MS,
                },
            ),
            fallback_breaker: CircuitBreaker::new(
                BreakerConfig {
                    failure_threshold_pct: FALLBACK_FAILURE_THRESHOLD_PCT,
                    min_throughput: DEFAULT_MIN_THROUGHPUT,
                    probe_quota: DEFAULT_PROBE_QUOTA,
                    cooldown_ms: FALLBACK_COOLDOWN_MS,
                },
            ),
        }
    }

    /// Replace the slot whose group name matches the entry's; an entry
    /// under any other name is ignored.
    pub fn update_processor_health(&mut self, processor: PaymentProcessor)
        ensures
            processor.key.name@ == "default"@ ==> *final(self) == (InMemoryPaymentRouter {
                default_processor: processor,
                ..*old(self)
            }),
            processor.key.name@ == "fallback"@ ==> *final(self) == (InMemoryPaymentRouter {
                fallback_processor: processor,
                ..*old(self)
            }),
            processor.key.name@ != "default"@ && processor.key.name@ != "fallback"@
                ==> *final(self) == *old(self),
    {
        proof {
            lemma_group_names_differ();
        }
        let default_name: String = "default".to_owned();
        let fallback_name: String = "fallback".to_owned();
        if processor.key.name == default_name {
            self.default_processor = processor;
        } else if processor.key.name == fallback_name {
            self.fallback_processor = processor;
        }
    }

    /// The routing decision over a snapshot of the registry at `now_ms`.
    ///
    /// The default is chosen whenever it is healthy, fast enough, and its
    /// breaker is not open. The fallback is considered only when the
    /// default's breaker is open; a default that is merely failing or slow
    /// yields no processor, so the worker stalls and re-queues rather than
    /// pay fallback fees.
    pub open spec fn spec_route(self, now_ms: i64) -> Option<ProcessorKind> {
        let default_open = self.default_breaker.spec_state_at(now_ms) == BreakerState::Open;
        if self.default_processor.health == HealthStatus::Healthy
            && self.default_processor.min_response_time < MAX_TOLERATED_RESPONSE_TIME_MS
            && !default_open {
            Some(ProcessorKind::Default)
        } else if default_open && self.fallback_processor.health == HealthStatus::Healthy
            && self.fallback_processor.min_response_time < MAX_TOLERATED_RESPONSE_TIME_MS
            && self.fallback_breaker.spec_state_at(now_ms) != BreakerState::Open {
            Some(ProcessorKind::Fallback)
        } else {
            None
        }
    }

    pub fn get_processor_for_payment(&self, now_ms: i64) -> (r: Option<ProcessorKind>)
        ensures
            r == self.spec_route(now_ms),
    {
        let default_open = self.default_breaker.current_state(now_ms) == BreakerState::Open;
        if self.default_processor.health.is_healthy()
            && self.default_processor.min_response_time < MAX_TOLERATED_RESPONSE_TIME_MS
            && !default_open {
            Some(ProcessorKind::Default)
        } else if default_open && self.fallback_processor.health.is_healthy()
            && self.fallback_processor.min_response_time < MAX_TOLERATED_RESPONSE_TIME_MS
            && self.fallback_breaker.current_state(now_ms) != BreakerState::Open {
            Some(ProcessorKind::Fallback)
        } else {
            None
        }
    }

    pub fn processor_key(&self, kind: ProcessorKind) -> (k: &PaymentProcessorKey)
        ensures
            *k == match kind {
                ProcessorKind::Default => self.default_processor.key,
                ProcessorKind::Fallback => self.fallback_processor.key,
            },
    {
        match kind {
            ProcessorKind::Default => &self.default_processor.key,
            ProcessorKind::Fallback => &self.fallback_processor.key,
        }
    }

    pub fn breaker(&self, kind: ProcessorKind) -> (b: &CircuitBreaker)
        ensures
            *b == self.spec_breaker(kind),
    {
        match kind {
            ProcessorKind::Default => &self.default_breaker,
            ProcessorKind::Fallback => &self.fallback_breaker,
        }
    }

    pub open spec fn spec_breaker(self, kind: ProcessorKind) -> CircuitBreaker {
        match kind {
            ProcessorKind::Default => self.default_breaker,
            ProcessorKind::Fallback => self.fallback_breaker,
        }
    }

    /// The router after the breaker of `kind` records an outcome at
    /// `now_ms`; the processor entries and the other breaker are untouched.
    pub open spec fn spec_after_outcome(
        self,
        kind: ProcessorKind,
        success: bool,
        now_ms: i64,
    ) -> InMemoryPaymentRouter {
        let b = self.spec_breaker(kind);
        let b2 = if success {
            b.spec_after_success(now_ms)
        } else {
            b.spec_after_failure(now_ms)
        };
        match kind {
            ProcessorKind::Default => InMemoryPaymentRouter { default_breaker: b2, ..self },
            ProcessorKind::Fallback => InMemoryPaymentRouter { fallback_breaker: b2, ..self },
        }
    }

    /// Record the outcome of one dispatch through the breaker of `kind`.
    pub fn record_outcome(&mut self, kind: ProcessorKind, success: bool, now_ms: i64)
        ensures
            *final(self) == old(self).spec_after_outcome(kind, success, now_ms),
    {
        match kind {
            ProcessorKind::Default => {
                if success {
                    self.default_breaker.record_success(now_ms);
                } else {
                    self.default_breaker.record_failure(now_ms);
                }
            },
            ProcessorKind::Fallback => {
                if success {
                    self.fallback_breaker.record_success(now_ms);
                } else {
                    self.fallback_breaker.record_failure(now_ms);
                }
            },
        }
    }
}

impl Default for InMemoryPaymentRouter {
    /// A router whose processors carry the canonical group names and empty
    /// URLs, both assumed failing until probed.
    fn default() -> (r: InMemoryPaymentRouter)
        ensures
            r == InMemoryPaymentRouter::spec_initial(
                r.default_processor.key,
                r.fallback_processor.key,
            ),
            r.default_processor.key.name@ == "default"@,
            r.default_processor.key.url@ == Seq::<char>::empty(),
            r.fallback_processor.key.name@ == "fallback"@,
            r.fallback_processor.key.url@ == Seq::<char>::empty(),
            r.wf(),
    {
        proof {
            reveal_strlit("");
        }
        InMemoryPaymentRouter::new(
            PaymentProcessorKey::new("default".to_owned(), "".to_owned()),
            PaymentProcessorKey::new("fallback".to_owned(), "".to_owned()),
        )
    }
}

/// The fallback is returned only when the default's breaker is open at the
/// moment of the decision.
pub proof fn lemma_fallback_only_when_default_breaker_open(
    router: InMemoryPaymentRouter,
    now_ms: i64,
)
    ensures
        router.spec_route(now_ms) == Some(ProcessorKind::Fallback) ==> router
            .default_breaker
            .spec_state_at(now_ms) == BreakerState::Open,
{
}

} // verus!

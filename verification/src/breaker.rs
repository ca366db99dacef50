//! Per-processor circuit breaker.
//!
//! The breaker is a pure state machine over explicit timestamps: every
//! query and every recorded outcome carries the caller's clock reading in
//! unix milliseconds, so the whole policy is verified. A breaker that has
//! been `Open` for at least its cooldown reports itself as `HalfOpen`; the
//! stored state is only materialised when the next outcome is recorded.

use vstd::prelude::*;

verus! {

#[derive(Clone, Copy, Debug, PartialEq, Eq, Structural)]
pub enum BreakerState {
    Closed,
    Open,
    HalfOpen,
}

/// Policy parameters, fixed when the breaker is built.
///
/// The breaker trips when, over a window of at least `min_throughput`
/// recorded outcomes, the failure rate reaches `failure_threshold_pct`
/// percent. An open breaker cools down for `cooldown_ms` and then admits
/// trial calls; `probe_quota` consecutive successful trials close it again.
#[derive(Clone, Copy, Debug, PartialEq, Eq, Structural)]
pub struct BreakerConfig {
    pub failure_threshold_pct: u8,
    pub min_throughput: u64,
    pub probe_quota: u64,
    pub cooldown_ms: u64,
}

#[derive(Clone, Copy, Debug, PartialEq, Eq, Structural)]
pub struct CircuitBreaker {
    pub config: BreakerConfig,
    pub state: BreakerState,
    pub window_failures: u64,
    pub window_successes: u64,
    pub probe_successes: u64,
    pub opened_at_ms: i64,
}

/// Saturating increment: outcome counters never wrap.
pub open spec fn spec_inc_sat(x: u64) -> u64 {
    if x < u64::MAX {
        (x + 1) as u64
    } else {
        x
    }
}

fn inc_sat(x: u64) -> (r: u64)
    ensures
        r == spec_inc_sat(x),
{
    if x < u64::MAX {
        x + 1
    } else {
        x
    }
}

impl CircuitBreaker {
    /// The window trips the breaker: enough samples, failure rate at or
    /// above the threshold.
    pub open spec fn spec_trips(config: BreakerConfig, failures: u64, successes: u64) -> bool {
        &&& failures + successes >= config.min_throughput
        &&& failures * 100 >= config.failure_threshold_pct * (failures + successes)
    }

    /// The state an observer sees at `now_ms`: an `Open` breaker whose
    /// cooldown has elapsed presents itself as `HalfOpen`.
    pub open spec fn spec_state_at(self, now_ms: i64) -> BreakerState {
        if self.state == BreakerState::Open && now_ms - self.opened_at_ms >= self.config.cooldown_ms {
            BreakerState::HalfOpen
        } else {
            self.state
        }
    }

    /// The breaker after a failed call recorded at `now_ms`.
    pub open spec fn spec_after_failure(self, now_ms: i64) -> CircuitBreaker {
        match self.spec_state_at(now_ms) {
            BreakerState::Open => self,
            BreakerState::HalfOpen => (CircuitBreaker {
                state: BreakerState::Open,
                window_failures: 0,
                window_successes: 0,
                probe_successes: 0,
                opened_at_ms: now_ms,
                ..self
            }),
            BreakerState::Closed => {
                let f = spec_inc_sat(self.window_failures);
                if Self::spec_trips(self.config, f, self.window_successes) {
                    CircuitBreaker {
                        state: BreakerState::Open,
                        window_failures: 0,
                        window_successes: 0,
                        probe_successes: 0,
                        opened_at_ms: now_ms,
                        ..self
                    }
                } else {
                    CircuitBreaker { window_failures: f, ..self }
                }
            },
        }
    }

    /// The breaker after a successful call recorded at `now_ms`.
    pub open spec fn spec_after_success(self, now_ms: i64) -> CircuitBreaker {
        match self.spec_state_at(now_ms) {
            BreakerState::Open => self,
            BreakerState::HalfOpen => {
                let p = spec_inc_sat(self.probe_successes);
                if p >= self.config.probe_quota {
                    CircuitBreaker {
                        state: BreakerState::Closed,
                        window_failures: 0,
                        window_successes: 0,
                        probe_successes: 0,
                        ..self
                    }
                } else {
                    CircuitBreaker { state: BreakerState::HalfOpen, probe_successes: p, ..self }
                }
            },
            BreakerState::Closed => {
                let s = spec_inc_sat(self.window_successes);
                if Self::spec_trips(self.config, self.window_failures, s) {
                    CircuitBreaker {
                        state: BreakerState::Open,
                        window_failures: 0,
                        window_successes: 0,
                        probe_successes: 0,
                        opened_at_ms: now_ms,
                        ..self
                    }
                } else {
                    CircuitBreaker { window_successes: s, ..self }
                }
            },
        }
    }

    pub fn new(config: BreakerConfig) -> (b: CircuitBreaker)
        ensures
            b == (CircuitBreaker {
                config,
                state: BreakerState::Closed,
                window_failures: 0,
                window_successes: 0,
                probe_successes: 0,
                opened_at_ms: 0,
            }),
    {
        CircuitBreaker {
            config,
            state: BreakerState::Closed,
            window_failures: 0,
            window_successes: 0,
            probe_successes: 0,
            opened_at_ms: 0,
        }
    }

    pub fn current_state(&self, now_ms: i64) -> (s: BreakerState)
        ensures
            s == self.spec_state_at(now_ms),
    {
        match self.state {
            BreakerState::Open => {
                let elapsed: i128 = (now_ms as i128) - (self.opened_at_ms as i128);
                if elapsed >= self.config.cooldown_ms as i128 {
                    BreakerState::HalfOpen
                } else {
                    BreakerState::Open
                }
            },
            _ => self.state,
        }
    }

    fn trip_check(config: BreakerConfig, failures: u64, successes: u64) -> (r: bool)
        ensures
            r == Self::spec_trips(config, failures, successes),
    {
        let total: u128 = (failures as u128) + (successes as u128);
        proof {
            assert((config.failure_threshold_pct as u128) * total <= 255 * (u64::MAX as u128 + u64::MAX as u128)) by (nonlinear_arith)
                requires
                    total <= u64::MAX as u128 + u64::MAX as u128,
                    config.failure_threshold_pct as u128 <= 255,
            ;
        }
        (total >= config.min_throughput as u128) && ((failures as u128) * 100
            >= (config.failure_threshold_pct as u128) * total)
    }

    fn open_at(&mut self, now_ms: i64)
        ensures
            *final(self) == (CircuitBreaker {
                state: BreakerState::Open,
                window_failures: 0,
                window_successes: 0,
                probe_successes: 0,
                opened_at_ms: now_ms,
                ..*old(self)
            }),
    {
        self.state = BreakerState::Open;
        self.window_failures = 0;
        self.window_successes = 0;
        self.probe_successes = 0;
        self.opened_at_ms = now_ms;
    }

    /// Record a failed call. A breaker that is (still) `Open` passes no
    /// call, so it records nothing.
    pub fn record_failure(&mut self, now_ms: i64)
        ensures
            *final(self) == old(self).spec_after_failure(now_ms),
    {
        match self.current_state(now_ms) {
            BreakerState::Open => {},
            BreakerState::HalfOpen => {
                self.open_at(now_ms);
            },
            BreakerState::Closed => {
                let f = inc_sat(self.window_failures);
                if Self::trip_check(self.config, f, self.window_successes) {
                    self.open_at(now_ms);
                } else {
                    self.window_failures = f;
                }
            },
        }
    }

    /// Record a successful call.
    pub fn record_success(&mut self, now_ms: i64)
        ensures
            *final(self) == old(self).spec_after_success(now_ms),
    {
        match self.current_state(now_ms) {
            BreakerState::Open => {},
            BreakerState::HalfOpen => {
                let p = inc_sat(self.probe_successes);
                if p >= self.config.probe_quota {
                    self.state = BreakerState::Closed;
                    self.window_failures = 0;
                    self.window_successes = 0;
                    self.probe_successes = 0;
                } else {
                    self.state = BreakerState::HalfOpen;
                    self.probe_successes = p;
                }
            },
            BreakerState::Closed => {
                let s = inc_sat(self.window_successes);
                if Self::trip_check(self.config, self.window_failures, s) {
                    self.open_at(now_ms);
                } else {
                    self.window_successes = s;
                }
            },
        }
    }

    /// Force the breaker open as of `now_ms`, as if it had just tripped.
    pub fn force_open(&mut self, now_ms: i64)
        ensures
            *final(self) == (CircuitBreaker {
                state: BreakerState::Open,
                window_failures: 0,
                window_successes: 0,
                probe_successes: 0,
                opened_at_ms: now_ms,
                ..*old(self)
            }),
    {
        self.open_at(now_ms);
    }
}

} // verus!

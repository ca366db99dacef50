//! Settling one dispatch attempt.
//!
//! The HTTP call itself is I/O performed by the application around this
//! library; what the wire returned comes back as a `DispatchOutcome`. This
//! module holds the verified half: how a response is classified, how the
//! breaker records it, and when the payment is stamped and persisted.

use vstd::prelude::*;

use crate::breaker::{BreakerState, CircuitBreaker};
use crate::ledger::Ledger;
use crate::payment::{Payment, ProcessorKind};

verus! {

/// A failed payment-processing step, with a human-readable message.
#[derive(Debug)]
pub struct PaymentProcessingError(pub String);

/// What one POST of a payment to a processor yielded on the wire.
#[derive(Clone, Copy, Debug, PartialEq, Eq, Structural)]
pub enum DispatchOutcome {
    /// The processor answered with this HTTP status.
    Status(u16),
    /// The request never completed: connect failure, timeout, or another
    /// transport error.
    TransportFailure,
}

/// How the worker treats a dispatch outcome.
#[derive(Clone, Copy, Debug, PartialEq, Eq, Structural)]
pub enum DispatchClass {
    /// 2xx: the processor accepted the payment.
    Accepted,
    /// 4xx: the processor rejected the payment as malformed; terminal, but
    /// not a breaker failure.
    Rejected,
    /// 5xx, any other status, or a transport error: a breaker failure.
    Failed,
}

pub open spec fn spec_classify(o: DispatchOutcome) -> DispatchClass {
    match o {
        DispatchOutcome::Status(s) => if 200 <= s && s < 300 {
            DispatchClass::Accepted
        } else if 400 <= s && s < 500 {
            DispatchClass::Rejected
        } else {
            DispatchClass::Failed
        },
        DispatchOutcome::TransportFailure => DispatchClass::Failed,
    }
}

pub fn classify_response(o: &DispatchOutcome) -> (c: DispatchClass)
    ensures
        c == spec_classify(*o),
{
    match o {
        DispatchOutcome::Status(s) => {
            if 200 <= *s && *s < 300 {
                DispatchClass::Accepted
            } else if 400 <= *s && *s < 500 {
                DispatchClass::Rejected
            } else {
                DispatchClass::Failed
            }
        },
        DispatchOutcome::TransportFailure => DispatchClass::Failed,
    }
}

/// The payment as it is persisted after a successful dispatch at `now_ms`.
pub open spec fn spec_stamped(p: Payment, kind: ProcessorKind, now_ms: i64) -> Payment {
    Payment {
        requested_at: Some(now_ms),
        processed_at: Some(now_ms),
        processed_by: Some(kind),
        ..p
    }
}

#[derive(Clone)]
pub struct ProcessPaymentUseCase {
    pub payment_repo: Ledger,
}

impl ProcessPaymentUseCase {
    pub fn new(payment_repo: Ledger) -> (r: ProcessPaymentUseCase)
        ensures
            r.payment_repo == payment_repo,
    {
        ProcessPaymentUseCase { payment_repo }
    }

    /// Settle one dispatch attempt of `payment` against `processed_by`.
    ///
    /// An open breaker refuses the call outright. Otherwise the outcome is
    /// classified: on acceptance the breaker records a success and the
    /// stamped payment is persisted; on a 4xx the breaker records a success
    /// but nothing is persisted and `false` is returned; on a 5xx or a
    /// transport error the breaker records a failure and the attempt errs.
    pub fn execute(
        &mut self,
        payment: Payment,
        processed_by: ProcessorKind,
        circuit_breaker: &mut CircuitBreaker,
        outcome: &DispatchOutcome,
        now_ms: i64,
    ) -> (r: Result<bool, PaymentProcessingError>)
        requires
            old(self).payment_repo.wf(),
        ensures
            final(self).payment_repo.wf(),
            old(circuit_breaker).spec_state_at(now_ms) == BreakerState::Open ==> {
                &&& r matches Err(e) && e.0@ == "Circuit breaker open"@
                &&& *final(self) == *old(self)
                &&& *final(circuit_breaker) == *old(circuit_breaker)
            },
            old(circuit_breaker).spec_state_at(now_ms) != BreakerState::Open ==> match spec_classify(
                *outcome,
            ) {
                DispatchClass::Accepted => {
                    &&& r matches Ok(b) && b == true
                    &&& *final(circuit_breaker) == old(circuit_breaker).spec_after_success(now_ms)
                    &&& final(self).payment_repo@ == old(self).payment_repo.spec_saved(
                        spec_stamped(payment, processed_by, now_ms),
                    )
                },
                DispatchClass::Rejected => {
                    &&& r matches Ok(b) && b == false
                    &&& *final(circuit_breaker) == old(circuit_breaker).spec_after_success(now_ms)
                    &&& *final(self) == *old(self)
                },
                DispatchClass::Failed => {
                    &&& r matches Err(e) && e.0@ == "Service unavailable"@
                    &&& *final(circuit_breaker) == old(circuit_breaker).spec_after_failure(now_ms)
                    &&& *final(self) == *old(self)
                },
            },
    {
        if circuit_breaker.current_state(now_ms) == BreakerState::Open {
            return Err(PaymentProcessingError("Circuit breaker open".to_owned()));
        }
        match classify_response(outcome) {
            DispatchClass::Accepted => {
                circuit_breaker.record_success(now_ms);
                let mut stamped = payment;
                stamped.requested_at = Some(now_ms);
                stamped.processed_at = Some(now_ms);
                stamped.processed_by = Some(processed_by);
                self.payment_repo.save(stamped);
                Ok(true)
            },
            DispatchClass::Rejected => {
                circuit_breaker.record_success(now_ms);
                Ok(false)
            },
            DispatchClass::Failed => {
                circuit_breaker.record_failure(now_ms);
                Err(PaymentProcessingError("Service unavailable".to_owned()))
            },
        }
    }
}

} // verus!

//! The payment intent and the queue message that carries it.

use vstd::prelude::*;

verus! {

/// Which of the two external processors handled a payment.
#[derive(Clone, Copy, Debug, PartialEq, Eq, Structural)]
pub enum ProcessorKind {
    Default,
    Fallback,
}

impl ProcessorKind {
    /// The group name under which the ledger files payments of this processor.
    pub open spec fn spec_name(self) -> Seq<char> {
        match self {
            ProcessorKind::Default => "default"@,
            ProcessorKind::Fallback => "fallback"@,
        }
    }

    pub fn name(&self) -> (r: String)
        ensures
            r@ == self.spec_name(),
    {
        match self {
            ProcessorKind::Default => "default".to_owned(),
            ProcessorKind::Fallback => "fallback".to_owned(),
        }
    }
}

/// A payment intent.
///
/// The client supplies `correlation_id` (an opaque 128-bit identifier,
/// globally unique per intent) and the amount, held in cents so that sums
/// and the two-decimal presentation are exact. Timestamps are unix
/// milliseconds; all three trailing fields start unset and are written only
/// while a worker dispatches the payment.
#[derive(Clone, Copy, Debug, PartialEq)]
pub struct Payment {
    pub correlation_id: u128,
    pub amount_cents: u64,
    pub requested_at: Option<i64>,
    pub processed_at: Option<i64>,
    pub processed_by: Option<ProcessorKind>,
}

impl Payment {
    /// A fresh intent as the ingress accepts it: both request fields set,
    /// the three dispatch fields unset.
    pub fn accepted(correlation_id: u128, amount_cents: u64) -> (p: Payment)
        ensures
            p == (Payment {
                correlation_id,
                amount_cents,
                requested_at: None::<i64>,
                processed_at: None::<i64>,
                processed_by: None::<ProcessorKind>,
            }),
    {
        Payment {
            correlation_id,
            amount_cents,
            requested_at: None,
            processed_at: None,
            processed_by: None,
        }
    }

    /// Stamp the moment of a dispatch attempt, immediately before the
    /// wire call; every other field is untouched, and on a retry the
    /// stamp is simply overwritten. The stamp is returned so the caller
    /// can settle the same attempt against the same clock reading.
    pub fn stamp_requested_at(&mut self) -> (t: i64)
        ensures
            *final(self) == (Payment { requested_at: Some(t), ..*old(self) }),
    {
        let t = crate::clock::now_utc_unix_ms();
        self.requested_at = Some(t);
        t
    }
}

/// A queue message: a payment under the identifier it is deduplicated by.
#[derive(Clone, Copy, Debug, PartialEq)]
pub struct Message {
    pub id: u128,
    pub body: Payment,
}

impl Message {
    pub fn with(id: u128, body: Payment) -> (m: Message)
        ensures
            m == (Message { id, body }),
    {
        Message { id, body }
    }
}

} // verus!

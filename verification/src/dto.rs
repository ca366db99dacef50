//! Plain request and response shapes of the two client-facing operations.
//!
//! Monetary amounts are integer cents throughout, so summary totals are
//! exact at the two decimal places the API presents. Timestamps are unix
//! milliseconds.

use vstd::prelude::*;

verus! {

/// A client's payment intent as the ingress accepts it.
#[derive(Clone, Copy, Debug, PartialEq, Eq, Structural)]
pub struct CreatePaymentCommand {
    pub correlation_id: u128,
    pub amount_cents: u64,
}

/// The time window of a summary query; an unset bound means unbounded.
#[derive(Clone, Copy, Debug, PartialEq)]
pub struct GetPaymentSummaryQuery {
    pub from: Option<i64>,
    pub to: Option<i64>,
}

/// How many payments one processor group handled in a window, and their
/// total amount in cents.
#[derive(Clone, Copy, Debug, PartialEq, Eq, Structural)]
pub struct PaymentSummaryResult {
    pub total_requests: usize,
    pub total_amount_cents: u128,
}

/// The ledger summary for both groups over one window.
#[derive(Clone, Copy, Debug, PartialEq, Eq, Structural)]
pub struct PaymentsSummaryResponse {
    pub default: PaymentSummaryResult,
    pub fallback: PaymentSummaryResult,
}

} // verus!

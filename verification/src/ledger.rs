//! The ledger of successfully processed payments.
//!
//! The ledger is the single source of truth for deduplication: a payment is
//! filed under its `correlation_id`, `save` is idempotent per id, and the
//! well-formedness invariant keeps at most one entry per id across both
//! processor groups.

use vstd::prelude::*;

use crate::dto::{GetPaymentSummaryQuery, PaymentSummaryResult, PaymentsSummaryResponse};
use crate::payment::{Payment, ProcessorKind};

verus! {

/// An entry of `kind`'s group whose `processed_at` lies in the window.
pub open spec fn in_window(p: Payment, kind: ProcessorKind, from_ms: i64, to_ms: i64) -> bool {
    &&& p.processed_by == Some(kind)
    &&& match p.processed_at {
        Some(t) => from_ms <= t && t <= to_ms,
        None => false,
    }
}

/// How many entries of `s` fall in the window.
pub open spec fn spec_window_count(
    s: Seq<Payment>,
    kind: ProcessorKind,
    from_ms: i64,
    to_ms: i64,
) -> int
    decreases s.len(),
{
    if s.len() == 0 {
        0
    } else {
        spec_window_count(s.drop_last(), kind, from_ms, to_ms) + if in_window(
            s.last(),
            kind,
            from_ms,
            to_ms,
        ) {
            1int
        } else {
            0int
        }
    }
}

/// The summed amount, in cents, of the entries of `s` in the window.
pub open spec fn spec_window_sum(
    s: Seq<Payment>,
    kind: ProcessorKind,
    from_ms: i64,
    to_ms: i64,
) -> int
    decreases s.len(),
{
    if s.len() == 0 {
        0
    } else {
        spec_window_sum(s.drop_last(), kind, from_ms, to_ms) + if in_window(
            s.last(),
            kind,
            from_ms,
            to_ms,
        ) {
            s.last().amount_cents as int
        } else {
            0int
        }
    }
}

/// How many entries of `s` carry `correlation_id`.
pub open spec fn spec_id_count(s: Seq<Payment>, correlation_id: u128) -> int
    decreases s.len(),
{
    if s.len() == 0 {
        0
    } else {
        spec_id_count(s.drop_last(), correlation_id) + if s.last().correlation_id
            == correlation_id {
            1int
        } else {
            0int
        }
    }
}

/// Some entry of `s` carries `correlation_id`.
pub open spec fn seq_contains_id(s: Seq<Payment>, correlation_id: u128) -> bool {
    exists|i: int| 0 <= i < s.len() && (#[trigger] s[i]).correlation_id == correlation_id
}

/// The entries after an idempotent save of `p`.
pub open spec fn spec_saved_entries(s: Seq<Payment>, p: Payment) -> Seq<Payment> {
    if seq_contains_id(s, p.correlation_id) {
        s
    } else {
        s.push(p)
    }
}

#[derive(Clone)]
pub struct Ledger {
    entries: Vec<Payment>,
}

impl View for Ledger {
    type V = Seq<Payment>;

    closed spec fn view(&self) -> Seq<Payment> {
        self.entries@
    }
}

impl Ledger {
    /// Every entry records who processed it and when, and no two entries
    /// share a `correlation_id` — across both groups.
    pub open spec fn wf(self) -> bool {
        &&& forall|i: int|
            0 <= i < self@.len() ==> (#[trigger] self@[i]).processed_by is Some && self@[i].processed_at is Some
        &&& forall|i: int, j: int|
            0 <= i < j < self@.len() ==> (#[trigger] self@[i]).correlation_id != (
            #[trigger] self@[j]).correlation_id
    }

    pub open spec fn spec_contains_id(self, correlation_id: u128) -> bool {
        seq_contains_id(self@, correlation_id)
    }

    /// What `save` leaves in the ledger: unchanged if the id is already
    /// filed, else the entry appended.
    pub open spec fn spec_saved(self, p: Payment) -> Seq<Payment> {
        spec_saved_entries(self@, p)
    }

    pub fn new() -> (l: Ledger)
        ensures
            l@ == Seq::<Payment>::empty(),
            l.wf(),
    {
        Ledger { entries: Vec::new() }
    }

    /// Whether a payment with this `correlation_id` has been persisted.
    pub fn is_already_processed(&self, correlation_id: u128) -> (r: bool)
        ensures
            r == self.spec_contains_id(correlation_id),
    {
        let n = self.entries.len();
        let mut i: usize = 0;
        while i < n
            invariant
                n == self@.len(),
                0 <= i <= n,
                forall|k: int| 0 <= k < i ==> (#[trigger] self@[k]).correlation_id != correlation_id,
            decreases n - i,
        {
            if self.entries[i].correlation_id == correlation_id {
                return true;
            }
            i += 1;
        }
        false
    }

    /// Persist a processed payment, idempotently by `correlation_id`.
    pub fn save(&mut self, payment: Payment)
        requires
            old(self).wf(),
            payment.processed_by is Some,
            payment.processed_at is Some,
        ensures
            final(self)@ == old(self).spec_saved(payment),
            final(self).wf(),
    {
        if !self.is_already_processed(payment.correlation_id) {
            self.entries.push(payment);
        }
    }

    /// Look up the filed payment of `kind`'s group under `correlation_id`.
    pub fn get_payment_summary(&self, kind: ProcessorKind, correlation_id: u128) -> (r: Option<
        Payment,
    >)
        ensures
            match r {
                Some(p) => exists|i: int|
                    0 <= i < self@.len() && self@[i] == p && p.correlation_id == correlation_id
                        && p.processed_by == Some(kind),
                None => forall|i: int|
                    0 <= i < self@.len() ==> !((#[trigger] self@[i]).correlation_id
                        == correlation_id && self@[i].processed_by == Some(kind)),
            },
    {
        let n = self.entries.len();
        let mut i: usize = 0;
        while i < n
            invariant
                n == self@.len(),
                0 <= i <= n,
                forall|k: int|
                    0 <= k < i ==> !((#[trigger] self@[k]).correlation_id == correlation_id
                        && self@[k].processed_by == Some(kind)),
            decreases n - i,
        {
            let p = self.entries[i];
            let matches_kind = match p.processed_by {
                Some(k) => k == kind,
                None => false,
            };
            if p.correlation_id == correlation_id && matches_kind {
                return Some(p);
            }
            i += 1;
        }
        None
    }

    /// Count and total amount of the entries of one group whose
    /// `processed_at` lies in `[from_ms, to_ms]`. Amounts are cents, so the
    /// total is exact at two decimal places.
    pub fn get_summary_by_group(&self, kind: ProcessorKind, from_ms: i64, to_ms: i64) -> (r:
        PaymentSummaryResult)
        ensures
            r.total_requests as int == spec_window_count(self@, kind, from_ms, to_ms),
            r.total_amount_cents as int == spec_window_sum(self@, kind, from_ms, to_ms),
    {
        let n = self.entries.len();
        let mut i: usize = 0;
        let mut count: usize = 0;
        let mut total: u128 = 0;
        while i < n
            invariant
                n == self@.len(),
                0 <= i <= n,
                count <= i,
                count as int == spec_window_count(self@.take(i as int), kind, from_ms, to_ms),
                total as int == spec_window_sum(self@.take(i as int), kind, from_ms, to_ms),
                total as int <= (i as int) * (u64::MAX as int),
            decreases n - i,
        {
            let p = self.entries[i];
            proof {
                assert(self@.take(i + 1).drop_last() =~= self@.take(i as int));
                assert(self@.take(i + 1).last() == self@[i as int]);
                assert(((i + 1) as int) * (u64::MAX as int) == (i as int) * (u64::MAX as int)
                    + (u64::MAX as int)) by (nonlinear_arith);
                assert((i as int) * (u64::MAX as int) <= (usize::MAX as int) * (u64::MAX as int))
                    by (nonlinear_arith)
                    requires
                        0 <= i as int <= usize::MAX as int,
                ;
            }
            let in_range = match p.processed_at {
                Some(t) => from_ms <= t && t <= to_ms,
                None => false,
            };
            let matches_kind = match p.processed_by {
                Some(k) => k == kind,
                None => false,
            };
            if matches_kind && in_range {
                count += 1;
                total += p.amount_cents as u128;
            }
            i += 1;
        }
        proof {
            assert(self@.take(n as int) =~= self@);
        }
        PaymentSummaryResult { total_requests: count, total_amount_cents: total }
    }

    /// The summary of both groups; an unset bound of the query window is
    /// read as unbounded.
    pub fn payments_summary(&self, query: &GetPaymentSummaryQuery) -> (r: PaymentsSummaryResponse)
        ensures
            ({
                let from_ms = query.from.unwrap_or(i64::MIN);
                let to_ms = query.to.unwrap_or(i64::MAX);
                &&& r.default.total_requests as int == spec_window_count(
                    self@,
                    ProcessorKind::Default,
                    from_ms,
                    to_ms,
                )
                &&& r.default.total_amount_cents as int == spec_window_sum(
                    self@,
                    ProcessorKind::Default,
                    from_ms,
                    to_ms,
                )
                &&& r.fallback.total_requests as int == spec_window_count(
                    self@,
                    ProcessorKind::Fallback,
                    from_ms,
                    to_ms,
                )
                &&& r.fallback.total_amount_cents as int == spec_window_sum(
                    self@,
                    ProcessorKind::Fallback,
                    from_ms,
                    to_ms,
                )
            }),
    {
        let from_ms = match query.from {
            Some(t) => t,
            None => i64::MIN,
        };
        let to_ms = match query.to {
            Some(t) => t,
            None => i64::MAX,
        };
        PaymentsSummaryResponse {
            default: self.get_summary_by_group(ProcessorKind::Default, from_ms, to_ms),
            fallback: self.get_summary_by_group(ProcessorKind::Fallback, from_ms, to_ms),
        }
    }

    /// Remove every entry.
    pub fn purge(&mut self)
        ensures
            final(self)@ == Seq::<Payment>::empty(),
            final(self).wf(),
    {
        self.entries.clear();
    }
}

/// No `correlation_id` is filed more than once, across both groups.
pub proof fn lemma_at_most_one_entry_per_id(l: Ledger, correlation_id: u128)
    requires
        l.wf(),
    ensures
        spec_id_count(l@, correlation_id) <= 1,
{
    lemma_id_count_distinct(l@, correlation_id);
}

/// Saving the same `correlation_id` twice leaves the second save without
/// effect: the entries after both saves are those after the first.
pub proof fn lemma_save_idempotent_per_id(l: Ledger, first: Ledger, p: Payment, q: Payment)
    requires
        first@ == l.spec_saved(p),
        q.correlation_id == p.correlation_id,
    ensures
        first.spec_saved(q) == first@,
{
    assert(first.spec_contains_id(q.correlation_id)) by {
        if l.spec_contains_id(p.correlation_id) {
            let i = choose|i: int|
                0 <= i < l@.len() && (#[trigger] l@[i]).correlation_id == p.correlation_id;
            assert(first@[i].correlation_id == q.correlation_id);
        } else {
            assert(first@[l@.len() as int].correlation_id == q.correlation_id);
        }
    }
}

/// A filed id is counted at least once.
pub proof fn lemma_id_count_of_contained(s: Seq<Payment>, correlation_id: u128)
    requires
        seq_contains_id(s, correlation_id),
    ensures
        spec_id_count(s, correlation_id) >= 1,
    decreases s.len(),
{
    let i = choose|i: int| 0 <= i < s.len() && (#[trigger] s[i]).correlation_id == correlation_id;
    if i == s.len() - 1 {
        lemma_id_count_nonneg(s.drop_last(), correlation_id);
    } else {
        assert(s.drop_last()[i].correlation_id == correlation_id);
        lemma_id_count_of_contained(s.drop_last(), correlation_id);
    }
}

proof fn lemma_id_count_nonneg(s: Seq<Payment>, correlation_id: u128)
    ensures
        spec_id_count(s, correlation_id) >= 0,
    decreases s.len(),
{
    if s.len() > 0 {
        lemma_id_count_nonneg(s.drop_last(), correlation_id);
    }
}

proof fn lemma_id_count_absent(s: Seq<Payment>, correlation_id: u128)
    requires
        forall|i: int| 0 <= i < s.len() ==> (#[trigger] s[i]).correlation_id != correlation_id,
    ensures
        spec_id_count(s, correlation_id) == 0,
    decreases s.len(),
{
    if s.len() > 0 {
        lemma_id_count_absent(s.drop_last(), correlation_id);
    }
}

proof fn lemma_id_count_distinct(s: Seq<Payment>, correlation_id: u128)
    requires
        forall|i: int, j: int|
            0 <= i < j < s.len() ==> (#[trigger] s[i]).correlation_id != (
            #[trigger] s[j]).correlation_id,
    ensures
        spec_id_count(s, correlation_id) <= 1,
    decreases s.len(),
{
    if s.len() > 0 {
        let s0 = s.drop_last();
        if s.last().correlation_id == correlation_id {
            assert forall|i: int| 0 <= i < s0.len() implies (#[trigger] s0[i]).correlation_id
                != correlation_id by {
                assert(s[i] == s0[i]);
                assert(s[s.len() - 1].correlation_id == correlation_id);
            }
            lemma_id_count_absent(s0, correlation_id);
        } else {
            lemma_id_count_distinct(s0, correlation_id);
        }
    }
}

} // verus!

//! One cycle of a payment worker, as a verified state machine.
//!
//! The live worker task loops forever around I/O: pop a message, consult
//! the ledger, route, POST to a processor, settle. Everything it decides is
//! here, as one atomic cycle over the in-memory collaborators; the wire's
//! replies enter as a sequence of `DispatchOutcome` values, one per
//! attempt. The application around this library drives the same decisions
//! piecewise against its durable store.

use vstd::prelude::*;

use crate::ledger::{seq_contains_id, spec_id_count, spec_saved_entries};
use crate::payment::{Message, Payment, ProcessorKind};
use crate::process_payment::{
    spec_classify, spec_stamped, DispatchClass, DispatchOutcome, ProcessPaymentUseCase,
};
use crate::queue::InMemoryQueue;
use crate::router::InMemoryPaymentRouter;

verus! {

/// How the attempt loop of one cycle ended.
#[derive(Clone, Copy, Debug, PartialEq, Eq, Structural)]
pub enum AttemptResult {
    /// A processor accepted the payment; it is in the ledger.
    Processed(ProcessorKind),
    /// A processor rejected the payment (4xx); terminal, nothing persisted.
    Rejected(ProcessorKind),
    /// No processor was available, or the scripted outcomes ran out while
    /// every attempt failed.
    GaveUp,
}

/// What one worker cycle did with the head of the queue.
#[derive(Clone, Copy, Debug, PartialEq, Eq, Structural)]
pub enum CycleOutcome {
    /// The queue was empty.
    Idle,
    /// The payment was already in the ledger; the message was dropped.
    Skipped,
    Processed(ProcessorKind),
    RejectedByProcessor(ProcessorKind),
    /// The message went back to the tail of the queue.
    Requeued,
}

/// The attempt loop as a fold: route, dispatch the next scripted outcome,
/// record it on the chosen breaker, and either settle or try again.
pub open spec fn spec_attempts(
    router: InMemoryPaymentRouter,
    entries: Seq<Payment>,
    payment: Payment,
    responses: Seq<DispatchOutcome>,
    now_ms: i64,
) -> (InMemoryPaymentRouter, Seq<Payment>, AttemptResult)
    decreases responses.len(),
{
    match router.spec_route(now_ms) {
        None => (router, entries, AttemptResult::GaveUp),
        Some(kind) => {
            if responses.len() == 0 {
                (router, entries, AttemptResult::GaveUp)
            } else {
                match spec_classify(responses[0]) {
                    DispatchClass::Accepted => (
                        router.spec_after_outcome(kind, true, now_ms),
                        spec_saved_entries(entries, spec_stamped(payment, kind, now_ms)),
                        AttemptResult::Processed(kind),
                    ),
                    DispatchClass::Rejected => (
                        router.spec_after_outcome(kind, true, now_ms),
                        entries,
                        AttemptResult::Rejected(kind),
                    ),
                    DispatchClass::Failed => spec_attempts(
                        router.spec_after_outcome(kind, false, now_ms),
                        entries,
                        payment,
                        responses.drop_first(),
                        now_ms,
                    ),
                }
            }
        },
    }
}

/// Some message of `s` carries a payment with `correlation_id`.
pub open spec fn queue_has_id(s: Seq<Message>, correlation_id: u128) -> bool {
    exists|i: int| 0 <= i < s.len() && (#[trigger] s[i]).body.correlation_id == correlation_id
}

proof fn lemma_queue_has_id_push(s: Seq<Message>, m: Message, correlation_id: u128)
    ensures
        queue_has_id(s, correlation_id) ==> queue_has_id(s.push(m), correlation_id),
        queue_has_id(s.push(m), m.body.correlation_id),
{
    if queue_has_id(s, correlation_id) {
        let i = choose|i: int|
            0 <= i < s.len() && (#[trigger] s[i]).body.correlation_id == correlation_id;
        assert(s.push(m)[i].body.correlation_id == correlation_id);
    }
    assert(s.push(m)[s.len() as int] == m);
}

proof fn lemma_queue_has_id_drop_first(s: Seq<Message>, correlation_id: u128)
    requires
        s.len() > 0,
        queue_has_id(s, correlation_id),
        s[0].body.correlation_id != correlation_id,
    ensures
        queue_has_id(s.drop_first(), correlation_id),
{
    let i = choose|i: int|
        0 <= i < s.len() && (#[trigger] s[i]).body.correlation_id == correlation_id;
    assert(s.drop_first()[i - 1].body.correlation_id == correlation_id);
}

proof fn lemma_seq_contains_id_push(s: Seq<Payment>, p: Payment, correlation_id: u128)
    ensures
        seq_contains_id(s, correlation_id) ==> seq_contains_id(s.push(p), correlation_id),
        seq_contains_id(s.push(p), p.correlation_id),
{
    if seq_contains_id(s, correlation_id) {
        let i = choose|i: int|
            0 <= i < s.len() && (#[trigger] s[i]).correlation_id == correlation_id;
        assert(s.push(p)[i].correlation_id == correlation_id);
    }
    assert(s.push(p)[s.len() as int] == p);
}

/// The attempt loop never touches the ledger except to file the processed
/// payment, never touches the processor entries, and gives up only with
/// the ledger unchanged.
proof fn lemma_attempts_entries(
    router: InMemoryPaymentRouter,
    entries: Seq<Payment>,
    payment: Payment,
    responses: Seq<DispatchOutcome>,
    now_ms: i64,
)
    ensures
        ({
            let (router2, entries2, ares) = spec_attempts(router, entries, payment, responses, now_ms);
            &&& router2.default_processor == router.default_processor
            &&& router2.fallback_processor == router.fallback_processor
            &&& match ares {
                AttemptResult::Processed(kind) => entries2 == spec_saved_entries(
                    entries,
                    spec_stamped(payment, kind, now_ms),
                ),
                AttemptResult::Rejected(_) => entries2 == entries,
                AttemptResult::GaveUp => entries2 == entries,
            }
        }),
    decreases responses.len(),
{
    match router.spec_route(now_ms) {
        None => {},
        Some(kind) => {
            if responses.len() > 0 && spec_classify(responses[0]) == DispatchClass::Failed {
                lemma_attempts_entries(
                    router.spec_after_outcome(kind, false, now_ms),
                    entries,
                    payment,
                    responses.drop_first(),
                    now_ms,
                );
            }
        },
    }
}

/// The verified model of the whole dispatch pipeline: the durable queue,
/// the registry-plus-breakers, and the ledger, together with ghost
/// accounting of which payments were accepted at the ingress and which a
/// processor terminally rejected.
pub struct PaymentGateway {
    pub queue: InMemoryQueue,
    pub router: InMemoryPaymentRouter,
    pub processor: ProcessPaymentUseCase,
    pub accepted: Ghost<Set<u128>>,
    pub rejected: Ghost<Set<u128>>,
}

impl PaymentGateway {
    pub open spec fn ledger_entries(self) -> Seq<Payment> {
        self.processor.payment_repo@
    }

    pub open spec fn queue_contents(self) -> Seq<Message> {
        self.queue.spec_contents()
    }

    /// Every queued message is keyed by its payment's `correlation_id`,
    /// and every accepted payment that no processor rejected is either in
    /// the ledger or still on the queue.
    pub open spec fn wf(self) -> bool {
        &&& self.router.wf()
        &&& self.processor.payment_repo.wf()
        &&& forall|i: int|
            0 <= i < self.queue_contents().len() ==> (#[trigger] self.queue_contents()[i]).id
                == self.queue_contents()[i].body.correlation_id
        &&& forall|correlation_id: u128|
            #[trigger] self.accepted@.contains(correlation_id) && !self.rejected@.contains(
                correlation_id,
            ) ==> seq_contains_id(self.ledger_entries(), correlation_id) || queue_has_id(
                self.queue_contents(),
                correlation_id,
            )
    }

    pub fn new(router: InMemoryPaymentRouter) -> (g: PaymentGateway)
        requires
            router.wf(),
        ensures
            g.router == router,
            g.queue_contents() == Seq::<Message>::empty(),
            g.ledger_entries() == Seq::<Payment>::empty(),
            g.accepted@ == Set::<u128>::empty(),
            g.rejected@ == Set::<u128>::empty(),
            g.wf(),
    {
        PaymentGateway {
            queue: InMemoryQueue::new(),
            router,
            processor: ProcessPaymentUseCase::new(crate::ledger::Ledger::new()),
            accepted: Ghost(Set::empty()),
            rejected: Ghost(Set::empty()),
        }
    }

    /// Accept a payment at the ingress: enqueue it under its own id.
    pub fn submit(&mut self, payment: Payment)
        requires
            old(self).wf(),
        ensures
            final(self).wf(),
            final(self).queue_contents() == old(self).queue_contents().push(
                Message { id: payment.correlation_id, body: payment },
            ),
            final(self).router == old(self).router,
            final(self).ledger_entries() == old(self).ledger_entries(),
            final(self).accepted@ == old(self).accepted@.insert(payment.correlation_id),
            final(self).rejected@ == old(self).rejected@,
    {
        let m = Message::with(payment.correlation_id, payment);
        self.queue.push_msg(m);
        proof {
            self.accepted@ = self.accepted@.insert(payment.correlation_id);
            assert forall|id: u128|
                #[trigger] self.accepted@.contains(id) && !self.rejected@.contains(id) implies
                seq_contains_id(self.ledger_entries(), id) || queue_has_id(
                    self.queue_contents(),
                    id,
                ) by {
                lemma_queue_has_id_push(old(self).queue_contents(), m, id);
            }
        }
    }

    /// What one worker cycle does, as a relation between the state before
    /// (`pre`), the state after (`post`), the scripted wire outcomes, and
    /// the reported result.
    pub open spec fn spec_cycle_rel(
        pre: PaymentGateway,
        post: PaymentGateway,
        responses: Seq<DispatchOutcome>,
        now_ms: i64,
        r: CycleOutcome,
    ) -> bool {
        &&& post.accepted@ == pre.accepted@
        &&& if pre.queue_contents().len() == 0 {
            &&& r == CycleOutcome::Idle
            &&& post.queue_contents() == pre.queue_contents()
            &&& post.router == pre.router
            &&& post.ledger_entries() == pre.ledger_entries()
            &&& post.rejected@ == pre.rejected@
        } else {
            let m = pre.queue_contents()[0];
            let rest = pre.queue_contents().drop_first();
            if seq_contains_id(pre.ledger_entries(), m.body.correlation_id) {
                &&& r == CycleOutcome::Skipped
                &&& post.queue_contents() == rest
                &&& post.router == pre.router
                &&& post.ledger_entries() == pre.ledger_entries()
                &&& post.rejected@ == pre.rejected@
            } else {
                let (router2, entries2, ares) = spec_attempts(
                    pre.router,
                    pre.ledger_entries(),
                    m.body,
                    responses,
                    now_ms,
                );
                &&& post.router == router2
                &&& post.ledger_entries() == entries2
                &&& match ares {
                    AttemptResult::Processed(k) => {
                        &&& r == CycleOutcome::Processed(k)
                        &&& post.queue_contents() == rest
                        &&& post.rejected@ == pre.rejected@
                    },
                    AttemptResult::Rejected(k) => {
                        &&& r == CycleOutcome::RejectedByProcessor(k)
                        &&& post.queue_contents() == rest
                        &&& post.rejected@ == pre.rejected@.insert(m.body.correlation_id)
                    },
                    AttemptResult::GaveUp => {
                        &&& r == CycleOutcome::Requeued
                        &&& post.queue_contents() == rest.push(m)
                        &&& post.rejected@ == pre.rejected@
                    },
                }
            }
        }
    }

    /// One full worker cycle: pop, deduplicate against the ledger, then
    /// attempt dispatches as `spec_attempts` folds them, and re-queue the
    /// message if nothing settled it.
    pub fn worker_cycle(&mut self, responses: &Vec<DispatchOutcome>, now_ms: i64) -> (r:
        CycleOutcome)
        requires
            old(self).wf(),
        ensures
            final(self).wf(),
            Self::spec_cycle_rel(*old(self), *final(self), responses@, now_ms, r),
    {
        let ghost pre = *old(self);
        let m = match self.queue.pop_msg() {
            None => {
                return CycleOutcome::Idle;
            },
            Some(m) => m,
        };
        let ghost rest = self.queue.spec_contents();
        proof {
            assert(responses@.skip(0) =~= responses@);
        }

        if self.processor.payment_repo.is_already_processed(m.body.correlation_id) {
            proof {
                self.lemma_wf_after_consume(pre, m);
            }
            return CycleOutcome::Skipped;
        }
        let n = responses.len();
        let mut i: usize = 0;
        while i < n
            invariant
                0 <= i <= n,
                n == responses@.len(),
                pre == *old(self),
                pre.wf(),
                pre.queue_contents().len() > 0,
                m == pre.queue_contents()[0],
                rest == pre.queue_contents().drop_first(),
                !seq_contains_id(pre.ledger_entries(), m.body.correlation_id),
                self.queue.spec_contents() == rest,
                self.processor.payment_repo@ == pre.ledger_entries(),
                self.processor.payment_repo.wf(),
                self.accepted@ == pre.accepted@,
                self.rejected@ == pre.rejected@,
                self.router.default_processor == pre.router.default_processor,
                self.router.fallback_processor == pre.router.fallback_processor,
                spec_attempts(
                    self.router,
                    self.processor.payment_repo@,
                    m.body,
                    responses@.skip(i as int),
                    now_ms,
                ) == spec_attempts(pre.router, pre.ledger_entries(), m.body, responses@, now_ms),
            decreases n - i,
        {
            let ghost loop_router = self.router;
            proof {
                assert(responses@.skip(i as int).len() > 0);
                assert(responses@.skip(i as int)[0] == responses@[i as int]);
                assert(responses@.skip(i as int).drop_first() =~= responses@.skip(i as int + 1));
            }
            let kind = match self.router.get_processor_for_payment(now_ms) {
                None => {
                    self.queue.push_msg(m);
                    proof {
                        self.lemma_wf_after_requeue(pre, m);
                    }
                    return CycleOutcome::Requeued;
                },
                Some(kind) => kind,
            };
            let res = match kind {
                ProcessorKind::Default => self.processor.execute(
                    m.body,
                    kind,
                    &mut self.router.default_breaker,
                    &responses[i],
                    now_ms,
                ),
                ProcessorKind::Fallback => self.processor.execute(
                    m.body,
                    kind,
                    &mut self.router.fallback_breaker,
                    &responses[i],
                    now_ms,
                ),
            };
            proof {
                assert(self.router == loop_router.spec_after_outcome(
                    kind,
                    spec_classify(responses@[i as int]) != DispatchClass::Failed,
                    now_ms,
                ));
            }
            match res {
                Ok(true) => {
                    proof {
                        let stamped = spec_stamped(m.body, kind, now_ms);
                        assert forall|id: u128|
                            seq_contains_id(pre.ledger_entries(), id) implies seq_contains_id(
                            self.ledger_entries(),
                            id,
                        ) by {
                            lemma_seq_contains_id_push(pre.ledger_entries(), stamped, id);
                        }
                        lemma_seq_contains_id_push(
                            pre.ledger_entries(),
                            stamped,
                            m.body.correlation_id,
                        );
                        self.lemma_wf_after_processed(pre, m);
                    }
                    return CycleOutcome::Processed(kind);
                },
                Ok(false) => {
                    proof {
                        self.rejected@ = self.rejected@.insert(m.body.correlation_id);
                        self.lemma_wf_after_consume(pre, m);
                    }
                    return CycleOutcome::RejectedByProcessor(kind);
                },
                Err(_) => {
                    i += 1;
                },
            }
        }
        proof {
            assert(responses@.skip(n as int).len() == 0);
        }
        self.queue.push_msg(m);
        proof {
            self.lemma_wf_after_requeue(pre, m);
        }
        CycleOutcome::Requeued
    }

    proof fn lemma_wf_after_consume(self, pre: PaymentGateway, m: Message)
        requires
            pre.wf(),
            pre.queue_contents().len() > 0,
            m == pre.queue_contents()[0],
            self.queue_contents() == pre.queue_contents().drop_first(),
            seq_contains_id(self.ledger_entries(), m.body.correlation_id) || self.rejected@.contains(
                m.body.correlation_id,
            ),
            self.router.wf(),
            self.processor.payment_repo.wf(),
            self.accepted@ == pre.accepted@,
            self.rejected@ == pre.rejected@ || self.rejected@ == pre.rejected@.insert(
                m.body.correlation_id,
            ),
            forall|id: u128|
                seq_contains_id(pre.ledger_entries(), id) ==> seq_contains_id(
                    self.ledger_entries(),
                    id,
                ),
        ensures
            self.wf(),
    {
        assert forall|id: u128|
            #[trigger] self.accepted@.contains(id) && !self.rejected@.contains(id) implies
            seq_contains_id(self.ledger_entries(), id) || queue_has_id(self.queue_contents(), id) by {
            if !seq_contains_id(self.ledger_entries(), id) {
                if id == m.body.correlation_id {
                    assert(seq_contains_id(self.ledger_entries(), id) || self.rejected@.contains(
                        id,
                    ));
                } else {
                    assert(queue_has_id(pre.queue_contents(), id) || seq_contains_id(
                        pre.ledger_entries(),
                        id,
                    ));
                    if queue_has_id(pre.queue_contents(), id) {
                        lemma_queue_has_id_drop_first(pre.queue_contents(), id);
                    }
                }
            }
        }
    }

    proof fn lemma_wf_after_processed(self, pre: PaymentGateway, m: Message)
        requires
            pre.wf(),
            pre.queue_contents().len() > 0,
            m == pre.queue_contents()[0],
            self.queue_contents() == pre.queue_contents().drop_first(),
            seq_contains_id(self.ledger_entries(), m.body.correlation_id),
            self.router.wf(),
            self.processor.payment_repo.wf(),
            self.accepted@ == pre.accepted@,
            self.rejected@ == pre.rejected@,
            forall|id: u128|
                seq_contains_id(pre.ledger_entries(), id) ==> seq_contains_id(
                    self.ledger_entries(),
                    id,
                ),
        ensures
            self.wf(),
    {
        self.lemma_wf_after_consume(pre, m);
    }

    proof fn lemma_wf_after_requeue(self, pre: PaymentGateway, m: Message)
        requires
            pre.wf(),
            pre.queue_contents().len() > 0,
            m == pre.queue_contents()[0],
            self.queue_contents() == pre.queue_contents().drop_first().push(m),
            self.router.wf(),
            self.processor.payment_repo.wf(),
            self.ledger_entries() == pre.ledger_entries(),
            self.accepted@ == pre.accepted@,
            self.rejected@ == pre.rejected@,
        ensures
            self.wf(),
    {
        assert forall|id: u128|
            #[trigger] self.accepted@.contains(id) && !self.rejected@.contains(id) implies
            seq_contains_id(self.ledger_entries(), id) || queue_has_id(self.queue_contents(), id) by {
            if !seq_contains_id(self.ledger_entries(), id) {
                assert(queue_has_id(pre.queue_contents(), id));
                if id == m.body.correlation_id {
                    lemma_queue_has_id_push(pre.queue_contents().drop_first(), m, id);
                } else {
                    lemma_queue_has_id_drop_first(pre.queue_contents(), id);
                    lemma_queue_has_id_push(pre.queue_contents().drop_first(), m, id);
                }
            }
        }
    }
}

/// Re-queueing a message after transient failure alters nothing: the
/// message that goes back to the tail is, field for field, the message
/// that was popped, and the ledger is untouched. Only the next attempt's
/// stamping writes `requested_at` (see `Payment::stamp_requested_at` and
/// `spec_stamped`).
pub proof fn lemma_requeue_preserves_payment(
    pre: PaymentGateway,
    post: PaymentGateway,
    responses: Seq<DispatchOutcome>,
    now_ms: i64,
)
    requires
        pre.queue_contents().len() > 0,
        PaymentGateway::spec_cycle_rel(pre, post, responses, now_ms, CycleOutcome::Requeued),
    ensures
        post.queue_contents().last() == pre.queue_contents()[0],
        post.ledger_entries() == pre.ledger_entries(),
{
    let m = pre.queue_contents()[0];
    if !seq_contains_id(pre.ledger_entries(), m.body.correlation_id) {
        lemma_attempts_entries(pre.router, pre.ledger_entries(), m.body, responses, now_ms);
    }
}

/// Every payment accepted at the ingress and never terminally rejected by
/// a processor is in the ledger exactly once, or still on the queue.
pub proof fn lemma_accepted_payment_accounted(g: PaymentGateway, correlation_id: u128)
    requires
        g.wf(),
        g.accepted@.contains(correlation_id),
        !g.rejected@.contains(correlation_id),
    ensures
        spec_id_count(g.ledger_entries(), correlation_id) == 1 || queue_has_id(
            g.queue_contents(),
            correlation_id,
        ),
{
    if seq_contains_id(g.ledger_entries(), correlation_id) {
        crate::ledger::lemma_id_count_of_contained(g.ledger_entries(), correlation_id);
        crate::ledger::lemma_at_most_one_entry_per_id(g.processor.payment_repo, correlation_id);
    }
}

} // verus!

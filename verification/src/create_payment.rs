//! Accepting a payment: file it on the durable queue under its own
//! `correlation_id`, so that re-delivery is idempotent at the message
//! layer.

use vstd::prelude::*;

use crate::payment::{Message, Payment};
use crate::queue::{Queue, QueueError};

verus! {

#[derive(Clone)]
pub struct CreatePaymentUseCase<Q: Queue> {
    payment_queue: Q,
}

impl<Q: Queue> CreatePaymentUseCase<Q> {
    pub closed spec fn queue_contents(&self) -> Seq<Message> {
        self.payment_queue.contents()
    }

    pub fn new(payment_queue: Q) -> (r: CreatePaymentUseCase<Q>)
        ensures
            r.queue_contents() == payment_queue.contents(),
    {
        CreatePaymentUseCase { payment_queue }
    }

    /// Enqueue the payment under `message_id == correlation_id`.
    pub fn execute(&mut self, payment: Payment) -> (r: Result<(), QueueError>)
        ensures
            r is Ok ==> final(self).queue_contents() == old(self).queue_contents().push(
                Message { id: payment.correlation_id, body: payment },
            ),
            r is Err ==> final(self).queue_contents() == old(self).queue_contents(),
    {
        self.payment_queue.push(Message::with(payment.correlation_id, payment))
    }
}

} // verus!

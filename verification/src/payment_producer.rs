//! The ingress side of the bounded accept channel.

use vstd::prelude::*;

use crate::payment::Payment;

verus! {

/// The channel refused the payment: it is full or closed, and the client
/// is answered with a server error.
#[derive(Clone, Copy, Debug, PartialEq, Eq, Structural)]
pub enum ProducerError {
    AcceptRejected,
}

/// Hands an accepted payment from the HTTP handler to the forwarder task
/// that owns the durable queue. Implemented by the application around this
/// library, over its in-memory channel.
pub trait PaymentProducer {
    fn send(&mut self, payment: Payment) -> Result<(), ProducerError>;
}

} // verus!

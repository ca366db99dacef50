//! The store-backed view of processor health, as the durable store keeps
//! it beside the ledger.

use vstd::prelude::*;

use crate::payment_processor::PaymentProcessor;

verus! {

/// The store could not be reached.
#[derive(Clone, Copy, Debug, PartialEq, Eq, Structural)]
pub enum RepositoryError {
    StorageUnavailable,
}

/// Persists each processor's last observed condition and answers how a
/// processor is doing, `0` for healthy and `1` for failing. Implemented by
/// the application around this library, over its durable store.
pub trait PaymentProcessorRepository {
    fn save(&mut self, processor: PaymentProcessor) -> Result<(), RepositoryError>;

    fn get_health_of(&mut self, processor_name: &str) -> Result<i32, RepositoryError>;
}

} // verus!

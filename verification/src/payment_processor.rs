//! Identity and currently observed condition of an external processor.

use vstd::prelude::*;

use crate::health_status::HealthStatus;

verus! {

/// Stable identity of a processor: its group name (`"default"` or
/// `"fallback"`) and its base URL. Both are fixed at startup.
#[derive(Clone, Debug, PartialEq)]
pub struct PaymentProcessorKey {
    pub name: String,
    pub url: String,
}

impl PaymentProcessorKey {
    pub fn new(name: String, url: String) -> (k: PaymentProcessorKey)
        ensures
            k.name == name,
            k.url == url,
    {
        PaymentProcessorKey { name, url }
    }
}

/// A processor as the registry tracks it: identity plus the health and the
/// minimum response time most recently reported by the processor itself.
#[derive(Clone, Debug)]
pub struct PaymentProcessor {
    pub key: PaymentProcessorKey,
    pub health: HealthStatus,
    pub min_response_time: u64,
}

} // verus!

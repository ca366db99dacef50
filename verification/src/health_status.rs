//! Self-reported liveness of an external processor.

use vstd::prelude::*;

verus! {

#[derive(Clone, Copy, Debug, PartialEq, Eq, Structural)]
pub enum HealthStatus {
    Healthy,
    Failing,
}

impl HealthStatus {
    pub fn is_healthy(&self) -> (r: bool)
        ensures
            r == (*self == HealthStatus::Healthy),
    {
        match self {
            HealthStatus::Healthy => true,
            HealthStatus::Failing => false,
        }
    }
}

} // verus!

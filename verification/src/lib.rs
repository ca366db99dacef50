//! Asynchronous payment-dispatch core: a durable payment queue, a ledger of
//! processed payments, per-processor health tracking with circuit breakers,
//! and the routing and worker decisions that deliver each accepted payment
//! exactly once to the default or the fallback processor.

pub mod breaker;
mod clock;
pub mod config;
pub mod create_payment;
pub mod dto;
pub mod environment;
pub mod health_monitor;
pub mod health_status;
pub mod ledger;
pub mod payment;
pub mod payment_processor;
pub mod payment_producer;
pub mod process_payment;
pub mod queue;
pub mod repository;
pub mod router;
pub mod settings;
pub mod worker;

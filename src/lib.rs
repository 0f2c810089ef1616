//! A circuit breaker: a guard around a fallible operation that stops calling
//! a failing dependency and probes it again once a timeout has passed.
//!
//! Times and delays are whole milliseconds (`u64`).

pub mod state;
pub mod clock;
pub mod breaker;
pub mod laws;
pub mod machine;

pub use breaker::{BreakerError, CircuitBreaker};
pub use machine::StateMachine;
pub use state::{Config, Shared, State};

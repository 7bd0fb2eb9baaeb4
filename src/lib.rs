//! Retry mechanisms for operations that may fail: backoff strategies that
//! produce the waits between attempts, conditions that decide whether a failure
//! is retried, and the state machine that drives the attempts.
use vstd::prelude::*;

pub mod condition;
pub mod engine;
pub mod laws;
pub mod strategy;

pub use condition::{AlwaysRetry, Condition};
pub use engine::{Phase, RetryMachine, Step};
pub use strategy::{ExponentialBackoff, FibonacciBackoff, FixedInterval};

//! Retry behaviours for fallible asynchronous operations.
//!
//! A retry session runs an action until it succeeds, a condition refuses to
//! go on, or a strategy has no wait left to give. This library holds the
//! strategies with their decorators and the engine that decides, after every
//! attempt and every wait, what a session does next. Running the attempts and
//! the timers is left to the caller.

pub mod condition;
pub mod duration;
pub mod error;
pub mod retry;
pub mod session;
pub mod strategy;

pub use condition::Condition;
pub use error::Error;
pub use retry::{Retry, RetryIf};

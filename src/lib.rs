//! Distributes one incoming payment evenly over a list of recipient accounts.
//!
//! The library decides; the host executes. Each entry point takes the values the
//! host exposes (the attached deposit, the gas budget, pending callback results)
//! as plain arguments and returns a plan: the transfers to schedule, in order,
//! and the continuation that reports the settled amount.

pub mod error;
pub mod fees;
pub mod host;
pub mod plan;
pub mod distrotron;
pub mod laws;

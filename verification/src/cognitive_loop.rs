//! Timing and success rates of the cognitive loop's phases.

pub mod blockchain_timing;
pub mod phase_timing;
pub mod success_rates;

//! Gap resolution: how many hypotheses iterative refinement recovers, and
//! where its time goes.

pub mod gap_resolution_real;
pub mod iteration_tracking;

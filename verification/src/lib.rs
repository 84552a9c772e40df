//! Experiment logic for evaluating a task-based cognitive architecture:
//! sample statistics, gap-resolution tallies, answer checking, batching and
//! result tables, with their contracts proved by Verus.

pub mod blockchain_benchmarks;
pub mod cognitive_loop;
pub mod gap_resolution;
pub mod knowledge;
pub mod llm_comparison;
pub mod multi_domain;
pub mod random;
pub mod runner;
pub mod samples;
pub mod text;

//! Blockchain benchmarks: layer latencies, agent scalability and knowledge-base
//! scalability.

pub mod layer_performance;
pub mod scalability_agents;
pub mod scalability_knowledge;

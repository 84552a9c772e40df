//! The tasks of one domain.

use vstd::prelude::*;

verus! {

/// A task of a domain: its id, complexity, description, expected outcome, and
/// the number of reasoning steps it takes.
#[derive(Debug, Clone)]
pub struct Task {
    pub id: String,
    pub complexity: String,
    pub description: String,
    pub expected_outcome: String,
    pub reasoning_steps: usize,
}

/// The tasks of one domain.
#[derive(Debug, Clone)]
pub struct TaskSet {
    pub domain: String,
    pub tasks: Vec<Task>,
}

} // verus!

//! A ReAct engine: thought, action and observation in turn, with the history
//! of earlier iterations as context, until an observation solves the task.

use vstd::prelude::*;
use crate::text::{decimal, u64_to_decimal};

verus! {

/// What the engine does after an observation.
#[derive(Debug, Clone, Copy, PartialEq, Eq)]
pub enum ReActStep {
    /// Go on with the next iteration.
    Continue { next_iteration: usize },
    /// Stop: solved or not, after this many iterations.
    Done { solved: bool, iterations: usize },
}

/// The engine's outcome when `solved[i]` says whether the observation of
/// iteration `i + 1` solved the task: the first solving iteration from `from`
/// on, or a failure after `max` iterations.
pub open spec fn react_engine_outcome(solved: Seq<bool>, max: int, from: int) -> (bool, int)
    decreases max - from + 1,
{
    if from < 1 || from > max || from > solved.len() {
        (false, max)
    } else if solved[from - 1] {
        (true, from)
    } else {
        react_engine_outcome(solved, max, from + 1)
    }
}

/// The prompt for a thought: `Task: {task}\nContext: {context}\n\nThought: `.
pub open spec fn thought_prompt_of(task: Seq<char>, context: Seq<char>) -> Seq<char> {
    "Task: "@ + task + "\nContext: "@ + context + "\n\nThought: "@
}

/// The record of one iteration that is added to the context.
pub open spec fn context_entry_of(
    iteration: nat,
    thought: Seq<char>,
    action: Seq<char>,
    observation: Seq<char>,
) -> Seq<char> {
    "Iter "@ + decimal(iteration) + ":\nThought: "@ + thought + "\nAction: "@ + action + "\nObs: "@
        + observation + "\n"@
}

/// Solves tasks by reasoning and acting in turn.
pub struct ReActEngine {
    max_iterations: usize,
}

impl ReActEngine {
    /// An engine that tries at most `max_iterations` iterations.
    pub fn new(max_iterations: usize) -> (e: Self)
        ensures
            e.max_iters() == max_iterations,
    {
        ReActEngine { max_iterations }
    }

    /// The most iterations the engine tries.
    pub closed spec fn max_iters(&self) -> usize {
        self.max_iterations
    }

    /// The prompt for a thought about a task, given the context so far.
    pub fn thought_prompt(&self, task: &str, context: &str) -> (s: String)
        ensures
            s@ == thought_prompt_of(task@, context@),
    {
        let mut s = String::from_str("Task: ");
        s.append(task);
        s.append("\nContext: ");
        s.append(context);
        s.append("\n\nThought: ");
        s
    }

    /// The prompt for an action after a thought: `{thought}\nAction: `.
    pub fn action_prompt(&self, thought: &str) -> (s: String)
        ensures
            s@ == thought@ + "\nAction: "@,
    {
        let mut s = String::from_str(thought);
        s.append("\nAction: ");
        s
    }

    /// Adds the record of an iteration to the context.
    pub fn record_iteration(
        &self,
        context: &mut String,
        iteration: u64,
        thought: &str,
        action: &str,
        observation: &str,
    )
        ensures
            final(context)@ == old(context)@ + context_entry_of(
                iteration as nat,
                thought@,
                action@,
                observation@,
            ),
    {
        context.append("Iter ");
        context.append(u64_to_decimal(iteration).as_str());
        context.append(":\nThought: ");
        context.append(thought);
        context.append("\nAction: ");
        context.append(action);
        context.append("\nObs: ");
        context.append(observation);
        context.append("\n");
    }

    /// What follows the observation of an iteration.
    pub fn after_observation(&self, iteration: usize, solved: bool) -> (step: ReActStep)
        requires
            1 <= iteration <= self.max_iters(),
        ensures
            solved ==> step == (ReActStep::Done { solved: true, iterations: iteration }),
            !solved && iteration < self.max_iters() ==> step == (ReActStep::Continue {
                next_iteration: (iteration + 1) as usize,
            }),
            !solved && iteration == self.max_iters() ==> step == (ReActStep::Done {
                solved: false,
                iterations: self.max_iters(),
            }),
    {
        if solved {
            ReActStep::Done { solved: true, iterations: iteration }
        } else if iteration < self.max_iterations {
            ReActStep::Continue { next_iteration: iteration + 1 }
        } else {
            ReActStep::Done { solved: false, iterations: self.max_iterations }
        }
    }

    /// Runs the engine where `solved[i]` says whether iteration `i + 1` solves the task.
    pub fn solve_with(&self, solved: &Vec<bool>) -> (r: (bool, usize))
        requires
            solved@.len() >= self.max_iters(),
        ensures
            r.0 == react_engine_outcome(solved@, self.max_iters() as int, 1).0,
            r.1 == react_engine_outcome(solved@, self.max_iters() as int, 1).1,
    {
        let max = self.max_iterations;
        let mut iteration: usize = 1;
        while iteration <= max
            invariant
                max == self.max_iters(),
                solved@.len() >= max,
                1 <= iteration <= max + 1,
                react_engine_outcome(solved@, max as int, 1) == react_engine_outcome(
                    solved@,
                    max as int,
                    iteration as int,
                ),
            decreases max + 1 - iteration,
        {
            let ghost o = react_engine_outcome(solved@, max as int, iteration as int);
            assert(o == if solved@[iteration - 1] {
                (true, iteration as int)
            } else {
                react_engine_outcome(solved@, max as int, iteration + 1)
            });
            assert(react_engine_outcome(solved@, max as int, max + 1) == (false, max as int));
            match self.after_observation(iteration, solved[iteration - 1]) {
                ReActStep::Done { solved: s, iterations } => {
                    return (s, iterations);
                },
                ReActStep::Continue { next_iteration } => {
                    iteration = next_iteration;
                },
            }
        }
        (false, max)
    }
}

} // verus!

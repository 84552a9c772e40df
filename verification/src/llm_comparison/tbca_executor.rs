//! TBCA with iterative refinement: it asks the model again, with a
//! step-by-step prompt, until an answer is affirmative or the iterations run out.

use vstd::prelude::*;
use crate::llm_comparison::answer_check::{affirmative, tbca_affirmative, tbca_keywords};
use crate::llm_comparison::llm_variants::LLMConfig;
use crate::llm_comparison::task_loader::Task;

verus! {

/// What an executor does next: ask the model with a prompt for an iteration,
/// or finish with a success flag and the number of iterations used.
#[derive(Debug)]
pub enum ExecutorAction {
    Ask { iteration: usize, prompt: String },
    Finish { success: bool, iterations: usize },
}

/// TBCA's outcome from the model's replies (`None` where generation failed):
/// the first iteration, from `from` to `max`, whose reply is affirmative, or a
/// failure after `max` iterations.
pub open spec fn tbca_outcome(
    replies: Seq<Option<String>>,
    expected: Seq<char>,
    max: int,
    from: int,
) -> (bool, int)
    decreases max - from + 1,
{
    if from < 1 || from > max || from > replies.len() {
        (false, max)
    } else if replies[from - 1] matches Some(r) && affirmative(r@, expected, tbca_keywords()) {
        (true, from)
    } else {
        tbca_outcome(replies, expected, max, from + 1)
    }
}

/// The prompt of an iteration: the first asks for a concise answer, later ones
/// for step-by-step thinking.
pub open spec fn tbca_prompt_of(description: Seq<char>, iteration: int) -> Seq<char> {
    if iteration == 1 {
        "Task: "@ + description + "\n\nWhat is the answer? Be concise."@
    } else {
        "Task: "@ + description + "\n\nWhat is the answer? Think step-by-step."@
    }
}

/// Executes tasks with TBCA on one model.
pub struct TBCAExecutor {
    llm: LLMConfig,
    max_iterations: usize,
}

impl TBCAExecutor {
    /// An executor on the given model, with five iterations (as many as the baseline).
    pub fn new(llm: LLMConfig) -> (e: Self)
        ensures
            e.max_iters() == 5,
            e.llm_spec() == llm,
    {
        TBCAExecutor { llm, max_iterations: 5 }
    }

    /// The most iterations the executor tries.
    pub closed spec fn max_iters(&self) -> usize {
        self.max_iterations
    }

    /// The model the executor asks.
    pub closed spec fn llm_spec(&self) -> LLMConfig {
        self.llm
    }

    /// The model the executor asks.
    pub fn llm(&self) -> (l: &LLMConfig)
        ensures
            *l == self.llm_spec(),
    {
        &self.llm
    }

    /// The prompt of an iteration for a task.
    pub fn prompt(&self, task: &Task, iteration: usize) -> (s: String)
        ensures
            s@ == tbca_prompt_of(task.description@, iteration as int),
    {
        let mut s = String::from_str("Task: ");
        s.append(task.description.as_str());
        if iteration == 1 {
            s.append("\n\nWhat is the answer? Be concise.");
        } else {
            s.append("\n\nWhat is the answer? Think step-by-step.");
        }
        s
    }

    /// The first action on a task: ask at iteration 1.
    pub fn start(&self, task: &Task) -> (a: ExecutorAction)
        ensures
            self.max_iters() == 0 ==> a == (ExecutorAction::Finish { success: false, iterations: 0 }),
            self.max_iters() > 0 ==> (a matches ExecutorAction::Ask { iteration, prompt }
                && iteration == 1 && prompt@ == tbca_prompt_of(task.description@, 1)),
    {
        if self.max_iterations == 0 {
            ExecutorAction::Finish { success: false, iterations: 0 }
        } else {
            ExecutorAction::Ask { iteration: 1, prompt: self.prompt(task, 1) }
        }
    }

    /// The action after the model replied at an iteration (`None` where
    /// generation failed): finish successfully on an affirmative reply; else ask
    /// again at the next iteration, or fail after the last.
    pub fn on_reply(&self, task: &Task, iteration: usize, reply: Option<String>) -> (a: ExecutorAction)
        requires
            1 <= iteration <= self.max_iters(),
        ensures
            (reply matches Some(r) && affirmative(r@, task.expected_outcome@, tbca_keywords()))
                ==> a == (ExecutorAction::Finish { success: true, iterations: iteration }),
            !(reply matches Some(r) && affirmative(r@, task.expected_outcome@, tbca_keywords())) ==> {
                if iteration < self.max_iters() {
                    (a matches ExecutorAction::Ask { iteration: next, prompt } && next == iteration + 1
                        && prompt@ == tbca_prompt_of(task.description@, iteration + 1))
                } else {
                    a == (ExecutorAction::Finish { success: false, iterations: self.max_iters() })
                }
            },
    {
        let accepted = match &reply {
            Some(r) => tbca_affirmative(r.as_str(), task.expected_outcome.as_str()),
            None => false,
        };
        if accepted {
            ExecutorAction::Finish { success: true, iterations: iteration }
        } else if iteration < self.max_iterations {
            ExecutorAction::Ask { iteration: iteration + 1, prompt: self.prompt(task, iteration + 1) }
        } else {
            ExecutorAction::Finish { success: false, iterations: self.max_iterations }
        }
    }

    /// Runs the executor on a task with the model's reply for each iteration:
    /// the outcome is the first affirmative iteration, or a failure after the last.
    pub fn execute_with_replies(&self, task: &Task, replies: &Vec<Option<String>>) -> (r: (bool, usize))
        requires
            replies@.len() >= self.max_iters(),
        ensures
            r.0 == tbca_outcome(replies@, task.expected_outcome@, self.max_iters() as int, 1).0,
            r.1 == tbca_outcome(replies@, task.expected_outcome@, self.max_iters() as int, 1).1,
            r.1 <= self.max_iters(),
    {
        let mut action = self.start(task);
        let ghost max = self.max_iters() as int;
        let ghost expected = task.expected_outcome@;
        loop
            invariant
                replies@.len() >= max,
                max == self.max_iters(),
                expected == task.expected_outcome@,
                match action {
                    ExecutorAction::Ask { iteration, prompt } => 1 <= iteration <= max
                        && tbca_outcome(replies@, expected, max, 1) == tbca_outcome(
                        replies@,
                        expected,
                        max,
                        iteration as int,
                    ),
                    ExecutorAction::Finish { success, iterations } => (success, iterations as int)
                        == tbca_outcome(replies@, expected, max, 1) && iterations <= max,
                },
            decreases
                match action {
                    ExecutorAction::Ask { iteration, prompt } => max + 1 - iteration,
                    ExecutorAction::Finish { success, iterations } => 0,
                },
        {
            match action {
                ExecutorAction::Ask { iteration, prompt } => {
                    let reply = match &replies[iteration - 1] {
                        Some(t) => Some(t.clone()),
                        None => None,
                    };
                    assert(reply == replies@[iteration - 1]);
                    assert(tbca_outcome(replies@, expected, max, iteration as int) == if reply matches Some(r)
                        && affirmative(r@, expected, tbca_keywords()) {
                        (true, iteration as int)
                    } else {
                        tbca_outcome(replies@, expected, max, iteration + 1)
                    });
                    action = self.on_reply(task, iteration, reply);
                },
                ExecutorAction::Finish { success, iterations } => {
                    return (success, iterations);
                },
            }
        }
    }
}

} // verus!

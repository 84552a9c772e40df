//! The ReAct+RAG baseline: it asks the model the same question each
//! iteration, and gives up when generation fails.

use vstd::prelude::*;
use crate::llm_comparison::answer_check::{affirmative, react_affirmative, react_keywords};
use crate::llm_comparison::llm_variants::LLMConfig;
use crate::llm_comparison::task_loader::Task;
use crate::llm_comparison::answer_check::lemma_tbca_accepts_what_react_accepts;
use crate::llm_comparison::tbca_executor::{tbca_outcome, ExecutorAction};

verus! {

/// The baseline's outcome from the model's replies (`None` where generation
/// failed): a failure at the first failed generation, success at the first
/// affirmative reply, or a failure after `max` iterations.
pub open spec fn react_outcome(
    replies: Seq<Option<String>>,
    expected: Seq<char>,
    max: int,
    from: int,
) -> (bool, int)
    decreases max - from + 1,
{
    if from < 1 || from > max || from > replies.len() {
        (false, max)
    } else {
        match replies[from - 1] {
            None => (false, from),
            Some(r) => if affirmative(r@, expected, react_keywords()) {
                (true, from)
            } else {
                react_outcome(replies, expected, max, from + 1)
            },
        }
    }
}

/// The question the baseline asks at every iteration.
pub open spec fn react_prompt_of(description: Seq<char>) -> Seq<char> {
    "Task: "@ + description + "\n\nWhat is the answer? Be concise."@
}

/// The two documents the baseline's retriever starts with.
pub open spec fn seed_documents_spec() -> Seq<Seq<char>> {
    seq![
        "Contract law: Payment within 30 days of delivery"@,
        "Delivery must occur by stated deadline"@,
    ]
}

/// Executes tasks with the ReAct+RAG baseline on one model.
pub struct ReActRAGExecutor {
    llm: LLMConfig,
    max_iterations: usize,
}

impl ReActRAGExecutor {
    /// An executor on the given model, with five iterations.
    pub fn new(llm: LLMConfig) -> (e: Self)
        ensures
            e.max_iters() == 5,
            e.llm_spec() == llm,
    {
        ReActRAGExecutor { llm, max_iterations: 5 }
    }

    /// The most iterations the executor tries.
    pub closed spec fn max_iters(&self) -> usize {
        self.max_iterations
    }

    /// The model the executor asks.
    pub closed spec fn llm_spec(&self) -> LLMConfig {
        self.llm
    }

    /// The model the executor asks.
    pub fn llm(&self) -> (l: &LLMConfig)
        ensures
            *l == self.llm_spec(),
    {
        &self.llm
    }

    /// The documents that the executor's retriever is seeded with.
    pub fn seed_documents(&self) -> (docs: Vec<&'static str>)
        ensures
            docs@.len() == 2,
            forall|i: int| 0 <= i < 2 ==> #[trigger] docs@[i]@ == seed_documents_spec()[i],
    {
        let mut docs: Vec<&'static str> = Vec::new();
        docs.push("Contract law: Payment within 30 days of delivery");
        docs.push("Delivery must occur by stated deadline");
        docs
    }

    /// The question asked about a task.
    pub fn prompt(&self, task: &Task) -> (s: String)
        ensures
            s@ == react_prompt_of(task.description@),
    {
        let mut s = String::from_str("Task: ");
        s.append(task.description.as_str());
        s.append("\n\nWhat is the answer? Be concise.");
        s
    }

    /// The first action on a task: ask at iteration 1.
    pub fn start(&self, task: &Task) -> (a: ExecutorAction)
        ensures
            self.max_iters() == 0 ==> a == (ExecutorAction::Finish { success: false, iterations: 0 }),
            self.max_iters() > 0 ==> (a matches ExecutorAction::Ask { iteration, prompt }
                && iteration == 1 && prompt@ == react_prompt_of(task.description@)),
    {
        if self.max_iterations == 0 {
            ExecutorAction::Finish { success: false, iterations: 0 }
        } else {
            ExecutorAction::Ask { iteration: 1, prompt: self.prompt(task) }
        }
    }

    /// The action after the model replied at an iteration: fail at once when
    /// generation failed; finish successfully on an affirmative reply; else ask
    /// again, or fail after the last iteration.
    pub fn on_reply(&self, task: &Task, iteration: usize, reply: Option<String>) -> (a: ExecutorAction)
        requires
            1 <= iteration <= self.max_iters(),
        ensures
            reply is None ==> a == (ExecutorAction::Finish { success: false, iterations: iteration }),
            (reply matches Some(r) && affirmative(r@, task.expected_outcome@, react_keywords()))
                ==> a == (ExecutorAction::Finish { success: true, iterations: iteration }),
            (reply matches Some(r) && !affirmative(r@, task.expected_outcome@, react_keywords())) ==> {
                if iteration < self.max_iters() {
                    (a matches ExecutorAction::Ask { iteration: next, prompt } && next == iteration + 1
                        && prompt@ == react_prompt_of(task.description@))
                } else {
                    a == (ExecutorAction::Finish { success: false, iterations: self.max_iters() })
                }
            },
    {
        match &reply {
            None => ExecutorAction::Finish { success: false, iterations: iteration },
            Some(r) => {
                if react_affirmative(r.as_str(), task.expected_outcome.as_str()) {
                    ExecutorAction::Finish { success: true, iterations: iteration }
                } else if iteration < self.max_iterations {
                    ExecutorAction::Ask { iteration: iteration + 1, prompt: self.prompt(task) }
                } else {
                    ExecutorAction::Finish { success: false, iterations: self.max_iterations }
                }
            },
        }
    }

    /// Runs the baseline on a task with the model's reply for each iteration.
    pub fn execute_with_replies(&self, task: &Task, replies: &Vec<Option<String>>) -> (r: (bool, usize))
        requires
            replies@.len() >= self.max_iters(),
        ensures
            r.0 == react_outcome(replies@, task.expected_outcome@, self.max_iters() as int, 1).0,
            r.1 == react_outcome(replies@, task.expected_outcome@, self.max_iters() as int, 1).1,
            r.1 <= self.max_iters(),
    {
        let mut action = self.start(task);
        let ghost max = self.max_iters() as int;
        let ghost expected = task.expected_outcome@;
        loop
            invariant
                replies@.len() >= max,
                max == self.max_iters(),
                expected == task.expected_outcome@,
                match action {
                    ExecutorAction::Ask { iteration, prompt } => 1 <= iteration <= max
                        && react_outcome(replies@, expected, max, 1) == react_outcome(
                        replies@,
                        expected,
                        max,
                        iteration as int,
                    ),
                    ExecutorAction::Finish { success, iterations } => (success, iterations as int)
                        == react_outcome(replies@, expected, max, 1) && iterations <= max,
                },
            decreases
                match action {
                    ExecutorAction::Ask { iteration, prompt } => max + 1 - iteration,
                    ExecutorAction::Finish { success, iterations } => 0,
                },
        {
            match action {
                ExecutorAction::Ask { iteration, prompt } => {
                    let reply = match &replies[iteration - 1] {
                        Some(t) => Some(t.clone()),
                        None => None,
                    };
                    assert(reply == replies@[iteration - 1]);
                    assert(react_outcome(replies@, expected, max, iteration as int) == match reply {
                        None => (false, iteration as int),
                        Some(r) => if affirmative(r@, expected, react_keywords()) {
                            (true, iteration as int)
                        } else {
                            react_outcome(replies@, expected, max, iteration + 1)
                        },
                    });
                    action = self.on_reply(task, iteration, reply);
                },
                ExecutorAction::Finish { success, iterations } => {
                    return (success, iterations);
                },
            }
        }
    }
}


/// Given the same replies, TBCA succeeds wherever the baseline succeeds, and
/// needs no more iterations for it.
pub proof fn lemma_tbca_succeeds_where_baseline_does(
    replies: Seq<Option<String>>,
    expected: Seq<char>,
    max: int,
    from: int,
)
    requires
        from >= 1,
    ensures
        react_outcome(replies, expected, max, from).0 ==> tbca_outcome(replies, expected, max, from).0
            && tbca_outcome(replies, expected, max, from).1 <= react_outcome(
            replies,
            expected,
            max,
            from,
        ).1,
        react_outcome(replies, expected, max, from).0 ==> react_outcome(replies, expected, max, from).1
            >= from,
    decreases max - from + 1,
{
    if from <= max && from <= replies.len() {
        match replies[from - 1] {
            None => {},
            Some(r) => {
                lemma_tbca_accepts_what_react_accepts(r@, expected);
                if !affirmative(r@, expected, react_keywords()) {
                    lemma_tbca_succeeds_where_baseline_does(replies, expected, max, from + 1);
                }
            },
        }
    }
}

} // verus!

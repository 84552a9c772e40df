//! How many tasks get through each stage of the cognitive loop: context
//! retrieval, the first hypothesis, gap resolution, and the blockchain commit.

use vstd::prelude::*;
use crate::knowledge::{numbered, pku, Pku};
use crate::samples::{count_where, lemma_count_take_next};
use crate::text::decimal;

verus! {

/// Probability, in basis points, that cached context retrieval succeeds.
pub fn cached_retrieval_bp() -> (p: u64)
    ensures
        p == 9800,
{
    9800
}

/// Probability, in basis points, that uncached context retrieval succeeds.
pub fn uncached_retrieval_bp() -> (p: u64)
    ensures
        p == 9500,
{
    9500
}

/// Probability, in basis points, that a task comes with complete supporting evidence.
pub fn complete_evidence_bp() -> (p: u64)
    ensures
        p == 6500,
{
    6500
}

/// Probability, in basis points, that a query to the chain finds the missing evidence.
pub fn chain_finds_evidence_bp() -> (p: u64)
    ensures
        p == 7000,
{
    7000
}

/// Probability, in basis points, that the blockchain commit succeeds.
pub fn commit_success_bp() -> (p: u64)
    ensures
        p == 9920,
{
    9920
}

/// The hypothesis of a task: `condition_{k}` leads to `result_{k}`, with `k` the task's id modulo 10.
pub fn task_hypothesis(task_id: u64) -> (p: Pku)
    ensures
        p.premise@ == "condition_"@ + decimal((task_id % 10) as nat),
        p.conclusion@ == "result_"@ + decimal((task_id % 10) as nat),
        p.solution@ == "hypothesis"@,
        p.confidence == 5000,
{
    let k = task_id % 10;
    pku(numbered("condition_", k), numbered("result_", k), "hypothesis", 5000)
}

/// The rule that supports a task's hypothesis directly, when its evidence is complete.
pub fn direct_rule(task_id: u64) -> (p: Pku)
    ensures
        p.premise@ == "condition_"@ + decimal((task_id % 10) as nat),
        p.conclusion@ == "result_"@ + decimal((task_id % 10) as nat),
        p.solution@ == "direct_rule"@,
        p.confidence == 9000,
{
    let k = task_id % 10;
    pku(numbered("condition_", k), numbered("result_", k), "direct_rule", 9000)
}

/// The evidence that a query to the chain returns for a task, when it finds any.
pub fn chain_evidence(task_id: u64) -> (p: Pku)
    ensures
        p.premise@ == "condition_"@ + decimal((task_id % 10) as nat),
        p.conclusion@ == "result_"@ + decimal((task_id % 10) as nat),
        p.solution@ == "from_blockchain"@,
        p.confidence == 8700,
{
    let k = task_id % 10;
    pku(numbered("condition_", k), numbered("result_", k), "from_blockchain", 8700)
}

/// What happened to one task in each stage. `gap_confidence` is the confidence
/// that gap resolution reached, when it ran.
#[derive(Debug, Clone, Copy)]
pub struct StageOutcome {
    pub cached_ok: bool,
    pub uncached_ok: bool,
    pub first_confidence: u64,
    pub gap_confidence: Option<u64>,
    pub commit_ok: bool,
}

/// How a task's hypotheses fared.
#[derive(Debug, Clone, Copy, PartialEq, Eq)]
pub enum TaskFate {
    /// The first hypothesis reached the threshold.
    FirstValid,
    /// The first did not, and gap resolution did.
    GapResolved,
    /// Neither reached the threshold.
    AllFailed,
}

/// The fate of a task's hypotheses under a confidence threshold.
pub open spec fn fate_of(o: StageOutcome, threshold: u64) -> TaskFate {
    if o.first_confidence >= threshold {
        TaskFate::FirstValid
    } else if o.gap_confidence matches Some(c) && c >= threshold {
        TaskFate::GapResolved
    } else {
        TaskFate::AllFailed
    }
}

/// The fate of a task's hypotheses under a confidence threshold.
pub fn task_fate(o: &StageOutcome, threshold: u64) -> (f: TaskFate)
    ensures
        f == fate_of(*o, threshold),
{
    if o.first_confidence >= threshold {
        TaskFate::FirstValid
    } else {
        match o.gap_confidence {
            Some(c) => if c >= threshold {
                TaskFate::GapResolved
            } else {
                TaskFate::AllFailed
            },
            None => TaskFate::AllFailed,
        }
    }
}

/// How many of the tasks got through each stage.
#[derive(Debug, Clone, Copy)]
pub struct SuccessRateResults {
    pub total_tasks: usize,
    pub context_retrieval_cached_success: usize,
    pub context_retrieval_uncached_success: usize,
    pub first_hypothesis_valid: usize,
    pub gap_resolution_success: usize,
    pub all_hypotheses_fail: usize,
    pub blockchain_commit_success: usize,
    pub blockchain_commit_timeout: usize,
}

pub open spec fn is_cached_ok() -> spec_fn(StageOutcome) -> bool {
    |o: StageOutcome| o.cached_ok
}

pub open spec fn is_uncached_ok() -> spec_fn(StageOutcome) -> bool {
    |o: StageOutcome| o.uncached_ok
}

pub open spec fn is_commit_ok() -> spec_fn(StageOutcome) -> bool {
    |o: StageOutcome| o.commit_ok
}

pub open spec fn is_commit_timeout() -> spec_fn(StageOutcome) -> bool {
    |o: StageOutcome| !o.commit_ok
}

pub open spec fn has_fate(f: TaskFate, threshold: u64) -> spec_fn(StageOutcome) -> bool {
    |o: StageOutcome| fate_of(o, threshold) == f
}

/// The counts that the stage outcomes of the tasks give.
pub open spec fn tally_of(s: Seq<StageOutcome>, threshold: u64) -> SuccessRateResults {
    SuccessRateResults {
        total_tasks: s.len() as usize,
        context_retrieval_cached_success: count_where(s, is_cached_ok()) as usize,
        context_retrieval_uncached_success: count_where(s, is_uncached_ok()) as usize,
        first_hypothesis_valid: count_where(s, has_fate(TaskFate::FirstValid, threshold)) as usize,
        gap_resolution_success: count_where(s, has_fate(TaskFate::GapResolved, threshold)) as usize,
        all_hypotheses_fail: count_where(s, has_fate(TaskFate::AllFailed, threshold)) as usize,
        blockchain_commit_success: count_where(s, is_commit_ok()) as usize,
        blockchain_commit_timeout: count_where(s, is_commit_timeout()) as usize,
    }
}

/// Counts, over the tasks' stage outcomes, how many got through each stage.
pub fn tally_success_rates(outcomes: &Vec<StageOutcome>, threshold: u64) -> (r: SuccessRateResults)
    ensures
        r == tally_of(outcomes@, threshold),
        r.first_hypothesis_valid + r.gap_resolution_success + r.all_hypotheses_fail
            == r.total_tasks,
        r.blockchain_commit_success + r.blockchain_commit_timeout == r.total_tasks,
{
    let n = outcomes.len();
    let mut cached: usize = 0;
    let mut uncached: usize = 0;
    let mut first: usize = 0;
    let mut gap: usize = 0;
    let mut failed: usize = 0;
    let mut commit: usize = 0;
    let mut timeout: usize = 0;
    let mut i: usize = 0;
    while i < n
        invariant
            n == outcomes@.len(),
            i <= n,
            cached == count_where(outcomes@.take(i as int), is_cached_ok()),
            uncached == count_where(outcomes@.take(i as int), is_uncached_ok()),
            first == count_where(
                outcomes@.take(i as int),
                has_fate(TaskFate::FirstValid, threshold),
            ),
            gap == count_where(outcomes@.take(i as int), has_fate(TaskFate::GapResolved, threshold)),
            failed == count_where(outcomes@.take(i as int), has_fate(TaskFate::AllFailed, threshold)),
            commit == count_where(outcomes@.take(i as int), is_commit_ok()),
            timeout == count_where(outcomes@.take(i as int), is_commit_timeout()),
            cached <= i,
            uncached <= i,
            first + gap + failed == i,
            commit + timeout == i,
        decreases n - i,
    {
        let o = &outcomes[i];
        proof {
            lemma_count_take_next(outcomes@, is_cached_ok(), i as int);
            lemma_count_take_next(outcomes@, is_uncached_ok(), i as int);
            lemma_count_take_next(outcomes@, has_fate(TaskFate::FirstValid, threshold), i as int);
            lemma_count_take_next(outcomes@, has_fate(TaskFate::GapResolved, threshold), i as int);
            lemma_count_take_next(outcomes@, has_fate(TaskFate::AllFailed, threshold), i as int);
            lemma_count_take_next(outcomes@, is_commit_ok(), i as int);
            lemma_count_take_next(outcomes@, is_commit_timeout(), i as int);
        }
        if o.cached_ok {
            cached = cached + 1;
        }
        if o.uncached_ok {
            uncached = uncached + 1;
        }
        match task_fate(o, threshold) {
            TaskFate::FirstValid => first = first + 1,
            TaskFate::GapResolved => gap = gap + 1,
            TaskFate::AllFailed => failed = failed + 1,
        }
        if o.commit_ok {
            commit = commit + 1;
        } else {
            timeout = timeout + 1;
        }
        i = i + 1;
    }
    assert(outcomes@.take(n as int) =~= outcomes@);
    SuccessRateResults {
        total_tasks: n,
        context_retrieval_cached_success: cached,
        context_retrieval_uncached_success: uncached,
        first_hypothesis_valid: first,
        gap_resolution_success: gap,
        all_hypotheses_fail: failed,
        blockchain_commit_success: commit,
        blockchain_commit_timeout: timeout,
    }
}

/// Every task ends in exactly one fate, and either commits or times out: the
/// first-valid, gap-resolved and all-failed counts add up to the number of
/// tasks, and so do the commit successes and timeouts.
pub proof fn lemma_tally_partitions(s: Seq<StageOutcome>, threshold: u64)
    ensures
        count_where(s, has_fate(TaskFate::FirstValid, threshold)) + count_where(
            s,
            has_fate(TaskFate::GapResolved, threshold),
        ) + count_where(s, has_fate(TaskFate::AllFailed, threshold)) == s.len(),
        count_where(s, is_commit_ok()) + count_where(s, is_commit_timeout()) == s.len(),
    decreases s.len(),
{
    if s.len() > 0 {
        lemma_tally_partitions(s.drop_last(), threshold);
    }
}

} // verus!

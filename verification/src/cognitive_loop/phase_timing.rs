//! Per-phase statistics of the cognitive loop: least, mean and greatest
//! duration of each phase over many runs, and the loop's totals.

use vstd::prelude::*;
use crate::knowledge::{pku, Pku};
use crate::text::{decimal, u64_to_decimal};
use crate::samples::{
    lemma_sum_between, max_of, max_sample, min_of, min_sample, sum_of, sum_samples,
};

verus! {

/// Least, mean (rounded down) and greatest duration of one phase.
#[derive(Debug, Clone, Copy)]
pub struct PhaseStats {
    pub min: u64,
    pub mean: u64,
    pub max: u64,
}

/// The statistics of a list of samples; all zero when there are none.
pub open spec fn stats_of(s: Seq<u64>) -> PhaseStats {
    PhaseStats {
        min: min_of(s),
        mean: if s.len() == 0 { 0 } else { (sum_of(s) / (s.len() as int)) as u64 },
        max: max_of(s),
    }
}

impl PhaseStats {
    /// The statistics of the samples: least, mean rounded down, greatest.
    pub fn from_samples(samples: &[u64]) -> (r: Self)
        requires
            sum_of(samples@) <= u64::MAX,
        ensures
            r == stats_of(samples@),
    {
        let n = samples.len();
        let total = sum_samples(samples);
        let mean = if n == 0 { 0 } else { total / (n as u64) };
        PhaseStats { min: min_sample(samples), mean, max: max_sample(samples) }
    }
}

/// For samples of a phase, the least duration is at most the mean, and the
/// mean at most the greatest.
pub proof fn lemma_stats_ordered(s: Seq<u64>)
    requires
        s.len() > 0,
    ensures
        stats_of(s).min <= stats_of(s).mean <= stats_of(s).max,
{
    lemma_sum_between(s);
    let n = s.len() as int;
    let t = sum_of(s);
    let lo = min_of(s) as int;
    let hi = max_of(s) as int;
    assert(lo <= t / n <= hi) by (nonlinear_arith)
        requires
            n > 0,
            n * lo <= t <= n * hi,
    ;
}


/// Statistics of every phase of the cognitive loop.
#[derive(Debug)]
pub struct PhaseTimingResults {
    pub task_submission: PhaseStats,
    pub context_retrieval_cached: PhaseStats,
    pub context_retrieval_uncached: PhaseStats,
    pub hypothesis_generation: PhaseStats,
    pub logic_validation: PhaseStats,
    pub decision_check: PhaseStats,
    pub blockchain_storage: PhaseStats,
    pub result_return: PhaseStats,
    pub network_overhead: PhaseStats,
}

/// The measured durations of every phase, one entry per run.
#[derive(Debug)]
pub struct PhaseSamples {
    pub task_submission: Vec<u64>,
    pub context_retrieval_cached: Vec<u64>,
    pub context_retrieval_uncached: Vec<u64>,
    pub hypothesis_generation: Vec<u64>,
    pub logic_validation: Vec<u64>,
    pub decision_check: Vec<u64>,
    pub blockchain_storage: Vec<u64>,
    pub result_return: Vec<u64>,
    pub network_overhead: Vec<u64>,
}

impl PhaseSamples {
    /// No runs measured yet.
    pub fn new() -> (r: Self)
        ensures
            r.task_submission@.len() == 0,
            r.context_retrieval_cached@.len() == 0,
            r.context_retrieval_uncached@.len() == 0,
            r.hypothesis_generation@.len() == 0,
            r.logic_validation@.len() == 0,
            r.decision_check@.len() == 0,
            r.blockchain_storage@.len() == 0,
            r.result_return@.len() == 0,
            r.network_overhead@.len() == 0,
    {
        PhaseSamples {
            task_submission: Vec::new(),
            context_retrieval_cached: Vec::new(),
            context_retrieval_uncached: Vec::new(),
            hypothesis_generation: Vec::new(),
            logic_validation: Vec::new(),
            decision_check: Vec::new(),
            blockchain_storage: Vec::new(),
            result_return: Vec::new(),
            network_overhead: Vec::new(),
        }
    }

    /// Every list of samples sums to a value that fits in a `u64`.
    pub open spec fn sums_fit(&self) -> bool {
        &&& sum_of(self.task_submission@) <= u64::MAX
        &&& sum_of(self.context_retrieval_cached@) <= u64::MAX
        &&& sum_of(self.context_retrieval_uncached@) <= u64::MAX
        &&& sum_of(self.hypothesis_generation@) <= u64::MAX
        &&& sum_of(self.logic_validation@) <= u64::MAX
        &&& sum_of(self.decision_check@) <= u64::MAX
        &&& sum_of(self.blockchain_storage@) <= u64::MAX
        &&& sum_of(self.result_return@) <= u64::MAX
        &&& sum_of(self.network_overhead@) <= u64::MAX
    }
}

impl PhaseTimingResults {
    /// The statistics of each phase's samples.
    pub fn from_phase_samples(samples: &PhaseSamples) -> (r: Self)
        requires
            samples.sums_fit(),
        ensures
            r.task_submission == stats_of(samples.task_submission@),
            r.context_retrieval_cached == stats_of(samples.context_retrieval_cached@),
            r.context_retrieval_uncached == stats_of(samples.context_retrieval_uncached@),
            r.hypothesis_generation == stats_of(samples.hypothesis_generation@),
            r.logic_validation == stats_of(samples.logic_validation@),
            r.decision_check == stats_of(samples.decision_check@),
            r.blockchain_storage == stats_of(samples.blockchain_storage@),
            r.result_return == stats_of(samples.result_return@),
            r.network_overhead == stats_of(samples.network_overhead@),
    {
        PhaseTimingResults {
            task_submission: PhaseStats::from_samples(samples.task_submission.as_slice()),
            context_retrieval_cached: PhaseStats::from_samples(
                samples.context_retrieval_cached.as_slice(),
            ),
            context_retrieval_uncached: PhaseStats::from_samples(
                samples.context_retrieval_uncached.as_slice(),
            ),
            hypothesis_generation: PhaseStats::from_samples(
                samples.hypothesis_generation.as_slice(),
            ),
            logic_validation: PhaseStats::from_samples(samples.logic_validation.as_slice()),
            decision_check: PhaseStats::from_samples(samples.decision_check.as_slice()),
            blockchain_storage: PhaseStats::from_samples(samples.blockchain_storage.as_slice()),
            result_return: PhaseStats::from_samples(samples.result_return.as_slice()),
            network_overhead: PhaseStats::from_samples(samples.network_overhead.as_slice()),
        }
    }

    /// Best case: the least of each phase, with context from the cache.
    pub open spec fn best_case_total(&self) -> int {
        self.task_submission.min + self.context_retrieval_cached.min
            + self.hypothesis_generation.min + self.logic_validation.min
            + self.decision_check.min + self.blockchain_storage.min + self.result_return.min
            + self.network_overhead.min
    }

    /// Typical case: the mean of each phase, with context from the cache.
    pub open spec fn typical_total(&self) -> int {
        self.task_submission.mean + self.context_retrieval_cached.mean
            + self.hypothesis_generation.mean + self.logic_validation.mean
            + self.decision_check.mean + self.blockchain_storage.mean
            + self.result_return.mean + self.network_overhead.mean
    }

    /// Worst case: the greatest of each phase, with context read from the chain.
    pub open spec fn worst_case_total(&self) -> int {
        self.task_submission.max + self.context_retrieval_uncached.max
            + self.hypothesis_generation.max + self.logic_validation.max
            + self.decision_check.max + self.blockchain_storage.max + self.result_return.max
            + self.network_overhead.max
    }

    /// The best-case, typical and worst-case totals of the loop.
    pub fn totals(&self) -> (t: (u64, u64, u64))
        requires
            self.best_case_total() <= u64::MAX,
            self.typical_total() <= u64::MAX,
            self.worst_case_total() <= u64::MAX,
        ensures
            t.0 == self.best_case_total(),
            t.1 == self.typical_total(),
            t.2 == self.worst_case_total(),
    {
        let best = self.task_submission.min + self.context_retrieval_cached.min
            + self.hypothesis_generation.min + self.logic_validation.min
            + self.decision_check.min + self.blockchain_storage.min + self.result_return.min
            + self.network_overhead.min;
        let typical = self.task_submission.mean + self.context_retrieval_cached.mean
            + self.hypothesis_generation.mean + self.logic_validation.mean
            + self.decision_check.mean + self.blockchain_storage.mean
            + self.result_return.mean + self.network_overhead.mean;
        let worst = self.task_submission.max + self.context_retrieval_uncached.max
            + self.hypothesis_generation.max + self.logic_validation.max
            + self.decision_check.max + self.blockchain_storage.max + self.result_return.max
            + self.network_overhead.max;
        (best, typical, worst)
    }
}

/// A phase's LaTeX line: `{label} & {min} & {mean} & {max} \\`.
pub open spec fn stats_line_of(label: Seq<char>, s: PhaseStats) -> Seq<char> {
    label + " & "@ + decimal(s.min as nat) + " & "@ + decimal(s.mean as nat) + " & "@ + decimal(
        s.max as nat,
    ) + " \\\\"@
}

/// A phase's LaTeX line.
pub fn stats_line(label: &str, s: PhaseStats) -> (line: String)
    ensures
        line@ == stats_line_of(label@, s),
{
    let mut line = String::from_str(label);
    line.append(" & ");
    line.append(u64_to_decimal(s.min).as_str());
    line.append(" & ");
    line.append(u64_to_decimal(s.mean).as_str());
    line.append(" & ");
    line.append(u64_to_decimal(s.max).as_str());
    line.append(" \\\\");
    line
}

/// The LaTeX lines of the phase table, in order: the seven phases (context
/// retrieval as uncached, then its cached and uncached rows), a rule, the
/// network overhead, a rule, and the best-case, typical and worst-case totals.
pub open spec fn phase_table_of(r: PhaseTimingResults) -> Seq<Seq<char>> {
    seq![
        stats_line_of("1. Task Submission"@, r.task_submission),
        stats_line_of("2. Context Retrieval"@, r.context_retrieval_uncached),
        stats_line_of("\\quad - Cached"@, r.context_retrieval_cached),
        stats_line_of("\\quad - Uncached"@, r.context_retrieval_uncached),
        stats_line_of("3. Hypothesis Generation"@, r.hypothesis_generation),
        stats_line_of("4. Logic Validation"@, r.logic_validation),
        stats_line_of("5. Decision Check"@, r.decision_check),
        stats_line_of("6. Blockchain Storage"@, r.blockchain_storage),
        stats_line_of("7. Result Return"@, r.result_return),
        "\\midrule"@,
        stats_line_of("Network Overhead"@, r.network_overhead),
        "\\midrule"@,
        "\\textbf{Total (Best Case)} & \\textbf{"@ + decimal(r.best_case_total() as nat)
            + "} & - & - \\\\"@,
        "\\textbf{Total (Typical)} & - & \\textbf{"@ + decimal(r.typical_total() as nat)
            + "} & - \\\\"@,
        "\\textbf{Total (Worst Case)} & - & - & \\textbf{"@ + decimal(
            r.worst_case_total() as nat,
        ) + "} \\\\"@,
    ]
}

fn bracketed(before: &str, n: u64, after: &str) -> (s: String)
    ensures
        s@ == before@ + decimal(n as nat) + after@,
{
    let mut s = String::from_str(before);
    s.append(u64_to_decimal(n).as_str());
    s.append(after);
    s
}

impl PhaseTimingResults {
    /// The LaTeX lines of the phase table.
    pub fn latex_lines(&self) -> (lines: Vec<String>)
        requires
            self.best_case_total() <= u64::MAX,
            self.typical_total() <= u64::MAX,
            self.worst_case_total() <= u64::MAX,
        ensures
            lines@.len() == phase_table_of(*self).len(),
            forall|i: int| 0 <= i < lines@.len() ==> #[trigger] lines@[i]@ == phase_table_of(*self)[i],
    {
        let (best, typical, worst) = self.totals();
        let mut lines: Vec<String> = Vec::new();
        lines.push(stats_line("1. Task Submission", self.task_submission));
        lines.push(stats_line("2. Context Retrieval", self.context_retrieval_uncached));
        lines.push(stats_line("\\quad - Cached", self.context_retrieval_cached));
        lines.push(stats_line("\\quad - Uncached", self.context_retrieval_uncached));
        lines.push(stats_line("3. Hypothesis Generation", self.hypothesis_generation));
        lines.push(stats_line("4. Logic Validation", self.logic_validation));
        lines.push(stats_line("5. Decision Check", self.decision_check));
        lines.push(stats_line("6. Blockchain Storage", self.blockchain_storage));
        lines.push(stats_line("7. Result Return", self.result_return));
        lines.push(String::from_str("\\midrule"));
        lines.push(stats_line("Network Overhead", self.network_overhead));
        lines.push(String::from_str("\\midrule"));
        lines.push(bracketed("\\textbf{Total (Best Case)} & \\textbf{", best, "} & - & - \\\\"));
        lines.push(bracketed("\\textbf{Total (Typical)} & - & \\textbf{", typical, "} & - \\\\"));
        lines.push(bracketed("\\textbf{Total (Worst Case)} & - & - & \\textbf{", worst, "} \\\\"));
        lines
    }
}

/// The task whose handling the loop times.
pub fn benchmark_task() -> (s: &'static str)
    ensures
        s@ == "Delivered Feb 28, paid March 25. Fulfilled?"@,
{
    "Delivered Feb 28, paid March 25. Fulfilled?"
}

/// How long cached context retrieval is simulated to take, in milliseconds.
pub fn cached_context_delay_ms() -> (d: u64)
    ensures
        d == 15,
{
    15
}

/// How long hypothesis generation is simulated to take in a run, in milliseconds.
pub fn hypothesis_delay_ms(run: usize) -> (d: u64)
    ensures
        d == 350 + run % 200,
{
    350 + (run % 200) as u64
}

/// How long the network overhead is simulated to take in a run, in milliseconds.
pub fn network_delay_ms(run: usize) -> (d: u64)
    ensures
        d == 50 + run % 100,
{
    50 + (run % 100) as u64
}

/// The JSON text that returns a decision: `{"success": true}` or `{"success": false}`.
pub fn result_json(success: bool) -> (s: String)
    ensures
        success ==> s@ == "{\"success\": true}"@,
        !success ==> s@ == "{\"success\": false}"@,
{
    if success {
        String::from_str("{\"success\": true}")
    } else {
        String::from_str("{\"success\": false}")
    }
}


/// The hypothesis that the logic-validation phase checks: the benchmark task
/// leads to "fulfilled".
pub fn validation_hypothesis() -> (p: Pku)
    ensures
        p.premise@ == "Delivered Feb 28, paid March 25. Fulfilled?"@,
        p.conclusion@ == "fulfilled"@,
        p.solution@ == "test"@,
        p.confidence == 5000,
{
    pku(String::from_str(benchmark_task()), String::from_str("fulfilled"), "test", 5000)
}

/// The knowledge the logic-validation phase checks against: delivery before
/// March 1 makes the delivery good, and a good delivery fulfils the contract.
pub fn validation_knowledge() -> (kb: Vec<Pku>)
    ensures
        kb@.len() == 2,
        kb@[0].premise@ == "delivered_before_march1"@,
        kb@[0].conclusion@ == "delivery_ok"@,
        kb@[0].solution@ == "rule1"@,
        kb@[0].confidence == 9500,
        kb@[1].premise@ == "delivery_ok"@,
        kb@[1].conclusion@ == "fulfilled"@,
        kb@[1].solution@ == "rule2"@,
        kb@[1].confidence == 9000,
{
    let mut kb: Vec<Pku> = Vec::new();
    kb.push(
        pku(
            String::from_str("delivered_before_march1"),
            String::from_str("delivery_ok"),
            "rule1",
            9500,
        ),
    );
    kb.push(pku(String::from_str("delivery_ok"), String::from_str("fulfilled"), "rule2", 9000));
    kb
}

/// The loop's totals from the measured samples of its phases (each phase
/// measured at least once): the typical total is the sum over the eight phases
/// of the loop (context from the cache) of each phase's sample sum divided by
/// its count, rounded down; the best case is the sum of their least samples and
/// the worst case, with context read from the chain, the sum of the greatest;
/// and best case <= typical <= worst case whenever the cached retrieval's mean
/// is at most the greatest uncached one.
pub proof fn lemma_totals_from_samples(samples: PhaseSamples, r: PhaseTimingResults)
    requires
        samples.task_submission@.len() > 0,
        samples.context_retrieval_cached@.len() > 0,
        samples.context_retrieval_uncached@.len() > 0,
        samples.hypothesis_generation@.len() > 0,
        samples.logic_validation@.len() > 0,
        samples.decision_check@.len() > 0,
        samples.blockchain_storage@.len() > 0,
        samples.result_return@.len() > 0,
        samples.network_overhead@.len() > 0,
        r.task_submission == stats_of(samples.task_submission@),
        r.context_retrieval_cached == stats_of(samples.context_retrieval_cached@),
        r.context_retrieval_uncached == stats_of(samples.context_retrieval_uncached@),
        r.hypothesis_generation == stats_of(samples.hypothesis_generation@),
        r.logic_validation == stats_of(samples.logic_validation@),
        r.decision_check == stats_of(samples.decision_check@),
        r.blockchain_storage == stats_of(samples.blockchain_storage@),
        r.result_return == stats_of(samples.result_return@),
        r.network_overhead == stats_of(samples.network_overhead@),
    ensures
        r.typical_total() == sum_of(samples.task_submission@) / (samples.task_submission@.len() as int)
            + sum_of(samples.context_retrieval_cached@) / (samples.context_retrieval_cached@.len() as int)
            + sum_of(samples.hypothesis_generation@) / (samples.hypothesis_generation@.len() as int)
            + sum_of(samples.logic_validation@) / (samples.logic_validation@.len() as int)
            + sum_of(samples.decision_check@) / (samples.decision_check@.len() as int)
            + sum_of(samples.blockchain_storage@) / (samples.blockchain_storage@.len() as int)
            + sum_of(samples.result_return@) / (samples.result_return@.len() as int)
            + sum_of(samples.network_overhead@) / (samples.network_overhead@.len() as int),
        r.best_case_total() == min_of(samples.task_submission@) + min_of(samples.context_retrieval_cached@)
            + min_of(samples.hypothesis_generation@) + min_of(samples.logic_validation@)
            + min_of(samples.decision_check@) + min_of(samples.blockchain_storage@)
            + min_of(samples.result_return@) + min_of(samples.network_overhead@),
        r.worst_case_total() == max_of(samples.task_submission@) + max_of(samples.context_retrieval_uncached@)
            + max_of(samples.hypothesis_generation@) + max_of(samples.logic_validation@)
            + max_of(samples.decision_check@) + max_of(samples.blockchain_storage@)
            + max_of(samples.result_return@) + max_of(samples.network_overhead@),
        r.best_case_total() <= r.typical_total(),
        r.context_retrieval_cached.mean <= r.context_retrieval_uncached.max ==> r.typical_total()
            <= r.worst_case_total(),
{
    lemma_mean_fits(samples.task_submission@);
    lemma_mean_fits(samples.context_retrieval_cached@);
    lemma_mean_fits(samples.hypothesis_generation@);
    lemma_mean_fits(samples.logic_validation@);
    lemma_mean_fits(samples.decision_check@);
    lemma_mean_fits(samples.blockchain_storage@);
    lemma_mean_fits(samples.result_return@);
    lemma_mean_fits(samples.network_overhead@);
    lemma_stats_ordered(samples.task_submission@);
    lemma_stats_ordered(samples.context_retrieval_cached@);
    lemma_stats_ordered(samples.hypothesis_generation@);
    lemma_stats_ordered(samples.logic_validation@);
    lemma_stats_ordered(samples.decision_check@);
    lemma_stats_ordered(samples.blockchain_storage@);
    lemma_stats_ordered(samples.result_return@);
    lemma_stats_ordered(samples.network_overhead@);
}

proof fn lemma_mean_fits(s: Seq<u64>)
    requires
        s.len() > 0,
    ensures
        stats_of(s).mean == sum_of(s) / (s.len() as int),
{
    lemma_sum_between(s);
    let n = s.len() as int;
    let t = sum_of(s);
    let hi = max_of(s) as int;
    assert(0 <= t / n <= hi) by (nonlinear_arith)
        requires
            n > 0,
            0 <= t <= n * hi,
    ;
}

} // verus!

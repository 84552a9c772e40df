//! One gap-resolution run, phase by phase: identifying the gap, querying for
//! knowledge, enriching the context, validating again, deciding.

use vstd::prelude::*;
use crate::knowledge::{numbered, pku, Pku};
use crate::random::{hits, random_up_to};
use crate::text::decimal;

verus! {

/// How long each phase of one iteration took, in milliseconds.
#[derive(Debug, Clone, Copy)]
pub struct GapResolutionPhases {
    pub gap_identification_ms: u64,
    pub knowledge_query_ms: u64,
    pub context_enrichment_ms: u64,
    pub revalidation_ms: u64,
    pub decision_ms: u64,
    pub total_ms: u64,
}

/// One iteration of gap resolution on one task. The similarity threshold is in
/// basis points (7500 = 0.75).
#[derive(Debug, Clone)]
pub struct GapResolutionRun {
    pub iteration: usize,
    pub phases: GapResolutionPhases,
    pub gap_type: String,
    pub resolved: bool,
    pub similarity_threshold_bp: u64,
}

/// The sum over the runs of one phase's duration.
pub open spec fn phase_sum(runs: Seq<GapResolutionRun>, f: spec_fn(GapResolutionPhases) -> u64) -> int
    decreases runs.len(),
{
    if runs.len() == 0 {
        0
    } else {
        phase_sum(runs.drop_last(), f) + f(runs.last().phases)
    }
}

pub open spec fn gap_identification() -> spec_fn(GapResolutionPhases) -> u64 {
    |p: GapResolutionPhases| p.gap_identification_ms
}

pub open spec fn knowledge_query() -> spec_fn(GapResolutionPhases) -> u64 {
    |p: GapResolutionPhases| p.knowledge_query_ms
}

pub open spec fn context_enrichment() -> spec_fn(GapResolutionPhases) -> u64 {
    |p: GapResolutionPhases| p.context_enrichment_ms
}

pub open spec fn revalidation() -> spec_fn(GapResolutionPhases) -> u64 {
    |p: GapResolutionPhases| p.revalidation_ms
}

pub open spec fn decision() -> spec_fn(GapResolutionPhases) -> u64 {
    |p: GapResolutionPhases| p.decision_ms
}

pub open spec fn total() -> spec_fn(GapResolutionPhases) -> u64 {
    |p: GapResolutionPhases| p.total_ms
}

/// Every phase's durations sum to a value that fits in a `u64`.
pub open spec fn phase_sums_fit(runs: Seq<GapResolutionRun>) -> bool {
    &&& phase_sum(runs, gap_identification()) <= u64::MAX
    &&& phase_sum(runs, knowledge_query()) <= u64::MAX
    &&& phase_sum(runs, context_enrichment()) <= u64::MAX
    &&& phase_sum(runs, revalidation()) <= u64::MAX
    &&& phase_sum(runs, decision()) <= u64::MAX
    &&& phase_sum(runs, total()) <= u64::MAX
}

proof fn lemma_phase_sum_next(runs: Seq<GapResolutionRun>, f: spec_fn(GapResolutionPhases) -> u64, i: int)
    requires
        0 <= i < runs.len(),
    ensures
        phase_sum(runs.take(i + 1), f) == phase_sum(runs.take(i), f) + f(runs[i].phases),
{
    assert(runs.take(i + 1).drop_last() =~= runs.take(i));
}

proof fn lemma_phase_sum_prefix(runs: Seq<GapResolutionRun>, f: spec_fn(GapResolutionPhases) -> u64, i: int)
    requires
        0 <= i <= runs.len(),
    ensures
        0 <= phase_sum(runs.take(i), f) <= phase_sum(runs, f),
    decreases runs.len(),
{
    if i < runs.len() {
        assert(runs.drop_last().take(i) =~= runs.take(i));
        lemma_phase_sum_prefix(runs.drop_last(), f, i);
    } else {
        assert(runs.take(i) =~= runs);
        if runs.len() > 0 {
            lemma_phase_sum_prefix(runs.drop_last(), f, runs.len() - 1);
            assert(runs.drop_last().take(runs.len() - 1) =~= runs.drop_last());
        }
    }
}

/// The mean duration of each phase over the runs, rounded down.
pub fn calculate_phase_averages(runs: &[GapResolutionRun]) -> (r: GapResolutionPhases)
    requires
        runs@.len() > 0,
        phase_sums_fit(runs@),
    ensures
        r.gap_identification_ms == phase_sum(runs@, gap_identification()) / (runs@.len() as int),
        r.knowledge_query_ms == phase_sum(runs@, knowledge_query()) / (runs@.len() as int),
        r.context_enrichment_ms == phase_sum(runs@, context_enrichment()) / (runs@.len() as int),
        r.revalidation_ms == phase_sum(runs@, revalidation()) / (runs@.len() as int),
        r.decision_ms == phase_sum(runs@, decision()) / (runs@.len() as int),
        r.total_ms == phase_sum(runs@, total()) / (runs@.len() as int),
{
    let n = runs.len();
    let mut a: u64 = 0;
    let mut b: u64 = 0;
    let mut c: u64 = 0;
    let mut d: u64 = 0;
    let mut e: u64 = 0;
    let mut t: u64 = 0;
    let mut i: usize = 0;
    while i < n
        invariant
            n == runs@.len(),
            i <= n,
            phase_sums_fit(runs@),
            a == phase_sum(runs@.take(i as int), gap_identification()),
            b == phase_sum(runs@.take(i as int), knowledge_query()),
            c == phase_sum(runs@.take(i as int), context_enrichment()),
            d == phase_sum(runs@.take(i as int), revalidation()),
            e == phase_sum(runs@.take(i as int), decision()),
            t == phase_sum(runs@.take(i as int), total()),
        decreases n - i,
    {
        proof {
            lemma_phase_sum_next(runs@, gap_identification(), i as int);
            lemma_phase_sum_next(runs@, knowledge_query(), i as int);
            lemma_phase_sum_next(runs@, context_enrichment(), i as int);
            lemma_phase_sum_next(runs@, revalidation(), i as int);
            lemma_phase_sum_next(runs@, decision(), i as int);
            lemma_phase_sum_next(runs@, total(), i as int);
            lemma_phase_sum_prefix(runs@, gap_identification(), i + 1);
            lemma_phase_sum_prefix(runs@, knowledge_query(), i + 1);
            lemma_phase_sum_prefix(runs@, context_enrichment(), i + 1);
            lemma_phase_sum_prefix(runs@, revalidation(), i + 1);
            lemma_phase_sum_prefix(runs@, decision(), i + 1);
            lemma_phase_sum_prefix(runs@, total(), i + 1);
        }
        let p = runs[i].phases;
        a = a + p.gap_identification_ms;
        b = b + p.knowledge_query_ms;
        c = c + p.context_enrichment_ms;
        d = d + p.revalidation_ms;
        e = e + p.decision_ms;
        t = t + p.total_ms;
        i = i + 1;
    }
    assert(runs@.take(n as int) =~= runs@);
    let count = n as u64;
    GapResolutionPhases {
        gap_identification_ms: a / count,
        knowledge_query_ms: b / count,
        context_enrichment_ms: c / count,
        revalidation_ms: d / count,
        decision_ms: e / count,
        total_ms: t / count,
    }
}

/// The kind of gap that a validation's confidence points to.
pub open spec fn gap_type_of(confidence: u64) -> Seq<char> {
    if confidence < 3000 {
        "Missing Rule"@
    } else if confidence < 6000 {
        "Missing Fact"@
    } else {
        "Ambiguous Reference"@
    }
}

/// The kind of gap that a validation's confidence points to: below 3000 a
/// missing rule, below 6000 a missing fact, otherwise an ambiguous reference.
pub fn classify_gap(confidence: u64) -> (s: String)
    ensures
        s@ == gap_type_of(confidence),
{
    if confidence < 3000 {
        String::from_str("Missing Rule")
    } else if confidence < 6000 {
        String::from_str("Missing Fact")
    } else {
        String::from_str("Ambiguous Reference")
    }
}

/// How long the query for missing knowledge is simulated to take, in milliseconds.
pub fn knowledge_query_delay_ms(task_id: usize) -> (d: u64)
    ensures
        d == 80 + task_id % 40,
{
    80 + (task_id % 40) as u64
}

/// The hypothesis a task starts from: `condition_{id}` leads to `result_{id}`.
pub fn initial_hypothesis(task_id: u64) -> (p: Pku)
    ensures
        p.premise@ == "condition_"@ + decimal(task_id as nat),
        p.conclusion@ == "result_"@ + decimal(task_id as nat),
        p.solution@ == "initial"@,
        p.confidence == 5000,
{
    pku(numbered("condition_", task_id), numbered("result_", task_id), "initial", 5000)
}

/// The probability, in basis points, that an iteration retrieves new knowledge:
/// 3700 at the first, 4000 at the second, none later.
pub open spec fn enrichment_prob(iteration: int) -> Option<u64> {
    if iteration == 1 {
        Some(3700u64)
    } else if iteration == 2 {
        Some(4000u64)
    } else {
        None
    }
}

/// What the enrichment of an iteration adds, when it retrieves anything: at the
/// first iteration the rule `condition_{id}` to `intermediate_{id}`, at the
/// second the fact `intermediate_{id}` to `result_{id}`.
pub open spec fn enrichment_matches(p: Pku, iteration: int, task_id: u64) -> bool {
    if iteration == 1 {
        &&& p.premise@ == "condition_"@ + decimal(task_id as nat)
        &&& p.conclusion@ == "intermediate_"@ + decimal(task_id as nat)
        &&& p.solution@ == "retrieved_rule"@
        &&& p.confidence == 8500
    } else {
        &&& p.premise@ == "intermediate_"@ + decimal(task_id as nat)
        &&& p.conclusion@ == "result_"@ + decimal(task_id as nat)
        &&& p.solution@ == "retrieved_fact"@
        &&& p.confidence == 8200
    }
}

/// Whether `r` is what the enrichment of an iteration adds, given the draw (in
/// `0..10000`) that decides whether retrieval succeeds: something only at the
/// first two iterations and only when the draw falls under that iteration's
/// probability, and then the unit that the iteration and task fix.
pub open spec fn enrichment_outcome(r: Option<Pku>, iteration: int, task_id: u64, draw: u64) -> bool {
    match enrichment_prob(iteration) {
        Some(p) => if hits(draw, p) {
            r matches Some(k) && enrichment_matches(k, iteration, task_id)
        } else {
            r is None
        },
        None => r is None,
    }
}

/// What the enrichment of an iteration adds to the knowledge, given the draw
/// (in `0..10000`) that decides whether retrieval succeeds.
pub fn enrichment_from_draw(iteration: usize, task_id: u64, draw: u64) -> (r: Option<Pku>)
    ensures
        enrichment_outcome(r, iteration as int, task_id, draw),
{
    if iteration == 1 && draw < 3700 {
        Some(
            pku(
                numbered("condition_", task_id),
                numbered("intermediate_", task_id),
                "retrieved_rule",
                8500,
            ),
        )
    } else if iteration == 2 && draw < 4000 {
        Some(
            pku(
                numbered("intermediate_", task_id),
                numbered("result_", task_id),
                "retrieved_fact",
                8200,
            ),
        )
    } else {
        None
    }
}

/// The enrichment of an iteration: retrieval succeeds by chance at the first two
/// iterations only, and what it retrieves is fixed by the iteration and task.
pub fn draw_enrichment(iteration: usize, task_id: u64) -> (r: Option<Pku>)
    ensures
        exists|draw: u64| draw <= 9999 && #[trigger] enrichment_outcome(r, iteration as int, task_id, draw),
{
    let draw = random_up_to(9999);
    let r = enrichment_from_draw(iteration, task_id, draw);
    assert(draw <= 9999 && enrichment_outcome(r, iteration as int, task_id, draw));
    r
}

impl GapResolutionRun {
    /// Records an iteration: the gap type comes from the confidence before
    /// enrichment, and the gap counts as resolved when the confidence after it
    /// reaches the threshold. The similarity threshold is 0.75.
    pub fn record(
        iteration: usize,
        phases: GapResolutionPhases,
        confidence_before: u64,
        confidence_after: u64,
        threshold: u64,
    ) -> (r: Self)
        ensures
            r.iteration == iteration,
            r.phases == phases,
            r.gap_type@ == gap_type_of(confidence_before),
            r.resolved == (confidence_after >= threshold),
            r.similarity_threshold_bp == 7500,
    {
        GapResolutionRun {
            iteration,
            phases,
            gap_type: classify_gap(confidence_before),
            resolved: confidence_after >= threshold,
            similarity_threshold_bp: 7500,
        }
    }
}

/// Whether a task goes on to another iteration: it does while unresolved, up to
/// the fifth iteration.
pub fn continues_after(iteration: usize, resolved: bool) -> (more: bool)
    ensures
        more == (!resolved && iteration < 5),
{
    !resolved && iteration < 5
}

/// What the logic engine gave in one iteration of a task: the phases' durations,
/// and the confidence in the hypothesis before and after enrichment.
#[derive(Debug, Clone, Copy)]
pub struct IterationOutcome {
    pub phases: GapResolutionPhases,
    pub confidence_before: u64,
    pub confidence_after: u64,
}

/// How many iterations a task runs, counting from iteration `i + 1` on: it stops
/// after the first iteration whose confidence after enrichment reaches the
/// threshold, after the fifth, or when no outcome is left.
pub open spec fn runs_taken(outcomes: Seq<IterationOutcome>, threshold: u64, i: int) -> int
    decreases 5 - i,
{
    if i >= 5 || i >= outcomes.len() {
        i
    } else if outcomes[i].confidence_after >= threshold {
        i + 1
    } else {
        runs_taken(outcomes, threshold, i + 1)
    }
}

/// `run` records iteration `iteration` with the outcome `o`.
pub open spec fn run_records(run: GapResolutionRun, iteration: int, o: IterationOutcome, threshold: u64) -> bool {
    &&& run.iteration == iteration
    &&& run.phases == o.phases
    &&& run.gap_type@ == gap_type_of(o.confidence_before)
    &&& run.resolved == (o.confidence_after >= threshold)
    &&& run.similarity_threshold_bp == 7500
}

proof fn lemma_runs_taken_range(outcomes: Seq<IterationOutcome>, threshold: u64, i: int)
    requires
        0 <= i <= 5,
    ensures
        i <= runs_taken(outcomes, threshold, i) <= 5,
        runs_taken(outcomes, threshold, i) <= (if i <= outcomes.len() { outcomes.len() as int } else { i }),
        forall|j: int| i <= j < runs_taken(outcomes, threshold, i) - 1 ==> #[trigger] outcomes[j].confidence_after < threshold,
        runs_taken(outcomes, threshold, i) < 5 && runs_taken(outcomes, threshold, i) < outcomes.len()
            ==> runs_taken(outcomes, threshold, i) > i && outcomes[runs_taken(outcomes, threshold, i) - 1].confidence_after >= threshold,
    decreases 5 - i,
{
    if i < 5 && i < outcomes.len() && outcomes[i].confidence_after < threshold {
        lemma_runs_taken_range(outcomes, threshold, i + 1);
    }
}

/// The runs of one task, from the logic engine's outcome of each iteration: one
/// run per iteration, numbered from 1, until an iteration resolves the gap, the
/// fifth iteration, or the outcomes end. So no run but the last is resolved, and
/// with outcomes for five iterations a task has 1 to 5 runs, fewer than five
/// only when its last run resolved the gap.
pub fn task_runs(outcomes: &Vec<IterationOutcome>, threshold: u64) -> (r: Vec<GapResolutionRun>)
    ensures
        r@.len() == runs_taken(outcomes@, threshold, 0),
        forall|i: int| 0 <= i < r@.len() ==> #[trigger] run_records(r@[i], i + 1, outcomes@[i], threshold),
        r@.len() <= 5,
        forall|i: int| 0 <= i < r@.len() - 1 ==> !(#[trigger] r@[i]).resolved,
        outcomes@.len() > 0 ==> r@.len() >= 1,
        r@.len() < 5 && r@.len() < outcomes@.len() ==> r@[r@.len() - 1].resolved,
{
    proof {
        lemma_runs_taken_range(outcomes@, threshold, 0);
    }
    let mut runs: Vec<GapResolutionRun> = Vec::new();
    let n = outcomes.len();
    let mut iteration: usize = 1;
    while iteration <= n
        invariant
            1 <= iteration <= 5,
            n == outcomes@.len(),
            runs@.len() == iteration - 1,
            forall|i: int| 0 <= i < runs@.len() ==> !(#[trigger] runs@[i]).resolved,
            runs_taken(outcomes@, threshold, 0) == runs_taken(outcomes@, threshold, iteration - 1),
            forall|i: int| 0 <= i < runs@.len() ==> #[trigger] run_records(runs@[i], i + 1, outcomes@[i], threshold),
        decreases n + 1 - iteration,
    {
        let o = outcomes[iteration - 1];
        let run = GapResolutionRun::record(
            iteration,
            o.phases,
            o.confidence_before,
            o.confidence_after,
            threshold,
        );
        let resolved = run.resolved;
        runs.push(run);
        proof {
            assert(runs_taken(outcomes@, threshold, iteration - 1) == if resolved {
                iteration as int
            } else {
                runs_taken(outcomes@, threshold, iteration as int)
            });
        }
        if !continues_after(iteration, resolved) {
            proof {
                if !resolved {
                    assert(runs_taken(outcomes@, threshold, 5) == 5);
                }
            }
            return runs;
        }
        iteration = iteration + 1;
    }
    proof {
        assert(runs_taken(outcomes@, threshold, n as int) == n);
    }
    runs
}

/// Each phase's sum over the runs adds up that phase's own field of every run:
/// nothing for no runs, and one more run adds its own duration of the phase.
/// So the average of one run is that run's duration of each phase.
pub proof fn lemma_phase_sums_by_field(runs: Seq<GapResolutionRun>, r: GapResolutionRun)
    ensures
        phase_sum(Seq::empty(), gap_identification()) == 0,
        phase_sum(runs.push(r), gap_identification()) == phase_sum(runs, gap_identification()) + r.phases.gap_identification_ms,
        phase_sum(runs.push(r), knowledge_query()) == phase_sum(runs, knowledge_query()) + r.phases.knowledge_query_ms,
        phase_sum(runs.push(r), context_enrichment()) == phase_sum(runs, context_enrichment()) + r.phases.context_enrichment_ms,
        phase_sum(runs.push(r), revalidation()) == phase_sum(runs, revalidation()) + r.phases.revalidation_ms,
        phase_sum(runs.push(r), decision()) == phase_sum(runs, decision()) + r.phases.decision_ms,
        phase_sum(runs.push(r), total()) == phase_sum(runs, total()) + r.phases.total_ms,
        phase_sum(seq![r], gap_identification()) / 1 == r.phases.gap_identification_ms,
        phase_sum(seq![r], knowledge_query()) / 1 == r.phases.knowledge_query_ms,
        phase_sum(seq![r], context_enrichment()) / 1 == r.phases.context_enrichment_ms,
        phase_sum(seq![r], revalidation()) / 1 == r.phases.revalidation_ms,
        phase_sum(seq![r], decision()) / 1 == r.phases.decision_ms,
        phase_sum(seq![r], total()) / 1 == r.phases.total_ms,
{
    assert(runs.push(r).drop_last() =~= runs);
    let one = seq![r];
    assert(one.drop_last() =~= Seq::<GapResolutionRun>::empty());
    assert(one.last() == r);
    let none = Seq::<GapResolutionRun>::empty();
    assert(phase_sum(none, gap_identification()) == 0);
    assert(phase_sum(none, knowledge_query()) == 0);
    assert(phase_sum(none, context_enrichment()) == 0);
    assert(phase_sum(none, revalidation()) == 0);
    assert(phase_sum(none, decision()) == 0);
    assert(phase_sum(none, total()) == 0);
    assert(phase_sum(one, gap_identification()) == r.phases.gap_identification_ms);
    assert(phase_sum(one, knowledge_query()) == r.phases.knowledge_query_ms);
    assert(phase_sum(one, context_enrichment()) == r.phases.context_enrichment_ms);
    assert(phase_sum(one, revalidation()) == r.phases.revalidation_ms);
    assert(phase_sum(one, decision()) == r.phases.decision_ms);
    assert(phase_sum(one, total()) == r.phases.total_ms);
}

} // verus!

use experiments::cognitive_loop::success_rates::{
    cached_retrieval_bp, chain_evidence, chain_finds_evidence_bp, commit_success_bp,
    complete_evidence_bp, direct_rule, tally_success_rates, task_fate, task_hypothesis,
    uncached_retrieval_bp, StageOutcome, TaskFate,
};
use experiments::gap_resolution::gap_resolution_real::{
    calculate_phase_averages, classify_gap, continues_after, draw_enrichment, enrichment_from_draw,
    initial_hypothesis, knowledge_query_delay_ms, task_runs, GapResolutionPhases, GapResolutionRun,
    IterationOutcome,
};
use experiments::gap_resolution::iteration_tracking::{
    gap_kind_for_task, measure_gap_resolution, measure_gap_resolution_from_draws, resolution_probability_bp, resolving_iteration,
    simulate_resolution, tally_gap_resolution, GapKind,
};

fn outcome(cached: bool, first: u64, gap: Option<u64>, commit: bool) -> StageOutcome {
    StageOutcome { cached_ok: cached, uncached_ok: !cached, first_confidence: first, gap_confidence: gap, commit_ok: commit }
}

#[test]
fn stage_probabilities() {
    assert_eq!(
        (cached_retrieval_bp(), uncached_retrieval_bp(), complete_evidence_bp(), chain_finds_evidence_bp(), commit_success_bp()),
        (9800, 9500, 6500, 7000, 9920)
    );
}

#[test]
fn task_knowledge_units() {
    let h = task_hypothesis(23);
    assert_eq!((h.premise.as_str(), h.conclusion.as_str(), h.solution.as_str(), h.confidence), ("condition_3", "result_3", "hypothesis", 5000));
    assert_eq!(direct_rule(23).confidence, 9000);
    assert_eq!(chain_evidence(9).solution, "from_blockchain");
    assert_eq!(chain_evidence(9).confidence, 8700);
}

#[test]
fn fates_and_success_tally() {
    let outcomes = vec![
        outcome(true, 9000, None, true),
        outcome(true, 5000, Some(8700), true),
        outcome(false, 5000, Some(7000), false),
        outcome(true, 5000, None, true),
        outcome(false, 8000, Some(1), true),
    ];
    assert_eq!(task_fate(&outcomes[0], 8000), TaskFate::FirstValid);
    assert_eq!(task_fate(&outcomes[1], 8000), TaskFate::GapResolved);
    assert_eq!(task_fate(&outcomes[2], 8000), TaskFate::AllFailed);
    assert_eq!(task_fate(&outcomes[3], 8000), TaskFate::AllFailed);
    assert_eq!(task_fate(&outcomes[4], 8000), TaskFate::FirstValid);
    let r = tally_success_rates(&outcomes, 8000);
    assert_eq!(r.total_tasks, 5);
    assert_eq!(r.context_retrieval_cached_success, 3);
    assert_eq!(r.context_retrieval_uncached_success, 2);
    assert_eq!((r.first_hypothesis_valid, r.gap_resolution_success, r.all_hypotheses_fail), (2, 1, 2));
    assert_eq!((r.blockchain_commit_success, r.blockchain_commit_timeout), (4, 1));
    let empty = tally_success_rates(&vec![], 8000);
    assert_eq!(empty.total_tasks, 0);
}

#[test]
fn gap_kinds_and_probabilities() {
    assert_eq!(gap_kind_for_task(0), GapKind::MissingRule);
    assert_eq!(gap_kind_for_task(14), GapKind::MissingRule);
    assert_eq!(gap_kind_for_task(15), GapKind::MissingFact);
    assert_eq!(gap_kind_for_task(18), GapKind::MissingFact);
    assert_eq!(gap_kind_for_task(19), GapKind::Ambiguous);
    assert_eq!(resolution_probability_bp(1, GapKind::MissingFact), 4000);
    assert_eq!(resolution_probability_bp(3, GapKind::Ambiguous), 800);
    assert_eq!(resolution_probability_bp(5, GapKind::MissingRule), 500);
    assert_eq!(resolution_probability_bp(6, GapKind::MissingRule), 0);
    assert_eq!(resolution_probability_bp(0, GapKind::MissingFact), 0);
}

#[test]
fn resolving_iterations_from_draws() {
    assert_eq!(resolving_iteration(GapKind::MissingRule, &vec![5000, 2400, 0, 0, 0]), 2);
    assert_eq!(resolving_iteration(GapKind::MissingRule, &vec![3499, 9999, 9999, 9999, 9999]), 1);
    assert_eq!(resolving_iteration(GapKind::Ambiguous, &vec![9999, 9999, 9999, 9999, 199]), 5);
    assert_eq!(resolving_iteration(GapKind::Ambiguous, &vec![9999, 9999, 9999, 9999, 200]), 0);
    for _ in 0..100 {
        assert!(simulate_resolution(GapKind::MissingFact) <= 5);
    }
}

#[test]
fn gap_tally() {
    let r = tally_gap_resolution(&vec![1, 0, 2, 5, 0, 0, 0, 0, 0, 3, 1]);
    assert_eq!(r.total_tasks, 11);
    assert_eq!(r.iterations.len(), 6);
    let got: Vec<(usize, u64, usize, usize)> =
        r.iterations.iter().map(|s| (s.iteration, s.cumulative_time_ms, s.resolved, s.cumulative_resolved)).collect();
    assert_eq!(got, vec![(0, 0, 0, 0), (1, 450, 2, 2), (2, 900, 1, 3), (3, 1350, 1, 4), (4, 1800, 0, 4), (5, 2250, 1, 5)]);
    let kinds: Vec<(&str, usize, usize)> =
        r.gap_types.iter().map(|g| (g.gap_type.as_str(), g.tasks, g.resolved)).collect();
    assert_eq!(kinds, vec![("Missing Rule", 6, 4), ("Missing Fact", 4, 0), ("Ambiguous Reference", 1, 1)]);
}

#[test]
fn test_gap_resolution_measurement() {
    let r = measure_gap_resolution(1000);
    assert_eq!(r.total_tasks, 1000);
    assert_eq!(r.iterations.len(), 6);
    assert_eq!(r.iterations[0].cumulative_resolved, 0);
    let kinds: Vec<usize> = r.gap_types.iter().map(|g| g.tasks).collect();
    assert_eq!(kinds, vec![500, 400, 100]);
    let resolved: usize = r.gap_types.iter().map(|g| g.resolved).sum();
    assert_eq!(resolved, r.iterations[5].cumulative_resolved);
    for w in r.iterations.windows(2) {
        assert!(w[0].cumulative_resolved <= w[1].cumulative_resolved);
        assert_eq!(w[1].cumulative_resolved, w[0].cumulative_resolved + w[1].resolved);
    }
    for g in &r.gap_types {
        assert!(g.resolved <= g.tasks);
    }
}

fn phases(a: u64, b: u64, c: u64, d: u64, e: u64, t: u64) -> GapResolutionPhases {
    GapResolutionPhases { gap_identification_ms: a, knowledge_query_ms: b, context_enrichment_ms: c, revalidation_ms: d, decision_ms: e, total_ms: t }
}

#[test]
fn phase_averages() {
    let runs = vec![
        GapResolutionRun::record(1, phases(1, 80, 0, 1, 0, 82), 5000, 5000, 8000),
        GapResolutionRun::record(2, phases(2, 95, 1, 2, 0, 100), 2000, 9000, 8000),
    ];
    assert_eq!(runs[0].gap_type, "Missing Fact");
    assert!(!runs[0].resolved);
    assert_eq!(runs[1].gap_type, "Missing Rule");
    assert!(runs[1].resolved);
    assert_eq!(runs[1].similarity_threshold_bp, 7500);
    let avg = calculate_phase_averages(&runs);
    assert_eq!(
        (avg.gap_identification_ms, avg.knowledge_query_ms, avg.context_enrichment_ms, avg.revalidation_ms, avg.decision_ms, avg.total_ms),
        (1, 87, 0, 1, 0, 91)
    );
}

#[test]
fn gap_resolution_steps() {
    assert_eq!(classify_gap(2999), "Missing Rule");
    assert_eq!(classify_gap(3000), "Missing Fact");
    assert_eq!(classify_gap(6000), "Ambiguous Reference");
    assert_eq!(knowledge_query_delay_ms(45), 85);
    let h = initial_hypothesis(12);
    assert_eq!((h.premise.as_str(), h.conclusion.as_str(), h.solution.as_str()), ("condition_12", "result_12", "initial"));
    let rule = enrichment_from_draw(1, 12, 3699).unwrap();
    assert_eq!((rule.premise.as_str(), rule.conclusion.as_str(), rule.confidence), ("condition_12", "intermediate_12", 8500));
    assert!(enrichment_from_draw(1, 12, 3700).is_none());
    let fact = enrichment_from_draw(2, 12, 3999).unwrap();
    assert_eq!((fact.premise.as_str(), fact.conclusion.as_str(), fact.confidence), ("intermediate_12", "result_12", 8200));
    assert!(enrichment_from_draw(3, 12, 0).is_none());
    for _ in 0..50 {
        assert!(draw_enrichment(4, 1).is_none());
        if let Some(k) = draw_enrichment(2, 1) {
            assert_eq!(k.solution, "retrieved_fact");
        }
    }
    assert!(continues_after(1, false));
    assert!(!continues_after(1, true));
    assert!(!continues_after(5, false));
}

#[test]
fn gap_resolution_from_given_draws() {
    let n = 9999u64;
    let draws: Vec<Vec<u64>> = vec![
        vec![0, n, n, n, n],
        vec![n, 2499, n, n, n],
        vec![n, n, n, n, n],
        vec![3500, n, 1499, n, n],
        vec![n, n, n, 799, n],
        vec![3999, n, n, n, n],
        vec![4000, 2199, n, n, n],
        vec![n, n, n, n, 299],
        vec![n, n, n, n, n],
        vec![1500, 1199, n, n, n],
    ];
    let r = measure_gap_resolution_from_draws(10, &draws);
    assert_eq!(r.total_tasks, 10);
    let got: Vec<(usize, u64, usize, usize)> =
        r.iterations.iter().map(|s| (s.iteration, s.cumulative_time_ms, s.resolved, s.cumulative_resolved)).collect();
    assert_eq!(got, vec![(0, 0, 0, 0), (1, 450, 2, 2), (2, 900, 3, 5), (3, 1350, 1, 6), (4, 1800, 1, 7), (5, 2250, 1, 8)]);
    let kinds: Vec<(&str, usize, usize)> =
        r.gap_types.iter().map(|g| (g.gap_type.as_str(), g.tasks, g.resolved)).collect();
    assert_eq!(kinds, vec![("Missing Rule", 5, 4), ("Missing Fact", 4, 3), ("Ambiguous Reference", 1, 1)]);
}

fn outcome_of(ms: u64, before: u64, after: u64) -> IterationOutcome {
    let phases = GapResolutionPhases {
        gap_identification_ms: ms,
        knowledge_query_ms: ms,
        context_enrichment_ms: ms,
        revalidation_ms: ms,
        decision_ms: ms,
        total_ms: 5 * ms,
    };
    IterationOutcome { phases, confidence_before: before, confidence_after: after }
}

#[test]
fn runs_of_one_task() {
    let outcomes = vec![outcome_of(1, 2000, 2000), outcome_of(2, 5000, 9000), outcome_of(3, 9000, 9500)];
    let runs = task_runs(&outcomes, 7000);
    let got: Vec<(usize, &str, bool, u64)> =
        runs.iter().map(|r| (r.iteration, r.gap_type.as_str(), r.resolved, r.phases.total_ms)).collect();
    assert_eq!(got, vec![(1, "Missing Rule", false, 5), (2, "Missing Fact", true, 10)]);
    assert!(runs.iter().all(|r| r.similarity_threshold_bp == 7500));
    let never: Vec<IterationOutcome> = (0..7).map(|i| outcome_of(i, 6500, 100)).collect();
    let runs = task_runs(&never, 7000);
    assert_eq!(runs.iter().map(|r| r.iteration).collect::<Vec<_>>(), vec![1, 2, 3, 4, 5]);
    assert!(runs.iter().all(|r| !r.resolved && r.gap_type == "Ambiguous Reference"));
    assert!(task_runs(&vec![], 7000).is_empty());
}

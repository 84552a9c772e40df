use experiments::cognitive_loop::phase_timing::{
    benchmark_task, cached_context_delay_ms, hypothesis_delay_ms, network_delay_ms, result_json,
    validation_hypothesis, validation_knowledge, PhaseSamples, PhaseStats, PhaseTimingResults,
};
use experiments::samples::{max_sample, min_sample, sort_samples, sum_samples};

#[test]
fn sums_extremes_and_sorting() {
    let v = vec![5u64, 3, 9, 1, 7];
    assert_eq!(sum_samples(&v), 25);
    assert_eq!(min_sample(&v), 1);
    assert_eq!(max_sample(&v), 9);
    assert_eq!(min_sample(&[]), 0);
    assert_eq!(max_sample(&[]), 0);
    let mut w = vec![4u64, 4, 2, 8, 0, 2];
    sort_samples(&mut w);
    assert_eq!(w, vec![0, 2, 2, 4, 4, 8]);
    let mut e: Vec<u64> = vec![];
    sort_samples(&mut e);
    assert!(e.is_empty());
}

#[test]
fn phase_stats_from_samples() {
    let s = PhaseStats::from_samples(&[10, 20, 40]);
    assert_eq!((s.min, s.mean, s.max), (10, 23, 40));
    let e = PhaseStats::from_samples(&[]);
    assert_eq!((e.min, e.mean, e.max), (0, 0, 0));
    let one = PhaseStats::from_samples(&[7]);
    assert_eq!((one.min, one.mean, one.max), (7, 7, 7));
}

#[test]
fn phase_stats_are_ordered() {
    for samples in [vec![1u64, 1000, 3], vec![9, 9, 9, 9], vec![0, 1], vec![500, 350, 549]] {
        let s = PhaseStats::from_samples(&samples);
        assert!(s.min <= s.mean && s.mean <= s.max);
    }
}

fn samples_for_two_runs() -> PhaseSamples {
    let mut p = PhaseSamples::new();
    p.task_submission = vec![0, 1];
    p.context_retrieval_cached = vec![15, 17];
    p.context_retrieval_uncached = vec![20, 40];
    p.hypothesis_generation = vec![350, 351];
    p.logic_validation = vec![1, 3];
    p.decision_check = vec![0, 0];
    p.blockchain_storage = vec![2000, 2002];
    p.result_return = vec![0, 0];
    p.network_overhead = vec![50, 51];
    p
}

#[test]
fn phase_results_and_totals() {
    let r = PhaseTimingResults::from_phase_samples(&samples_for_two_runs());
    assert_eq!((r.context_retrieval_uncached.min, r.context_retrieval_uncached.mean, r.context_retrieval_uncached.max), (20, 30, 40));
    let (best, typical, worst) = r.totals();
    assert_eq!(best, 0 + 15 + 350 + 1 + 0 + 2000 + 0 + 50);
    assert_eq!(typical, 0 + 16 + 350 + 2 + 0 + 2001 + 0 + 50);
    assert_eq!(worst, 1 + 40 + 351 + 3 + 0 + 2002 + 0 + 51);
}

#[test]
fn phase_table_lines() {
    let r = PhaseTimingResults::from_phase_samples(&samples_for_two_runs());
    let lines = r.latex_lines();
    assert_eq!(lines.len(), 15);
    assert_eq!(lines[0], "1. Task Submission & 0 & 0 & 1 \\\\");
    assert_eq!(lines[1], "2. Context Retrieval & 20 & 30 & 40 \\\\");
    assert_eq!(lines[2], "\\quad - Cached & 15 & 16 & 17 \\\\");
    assert_eq!(lines[9], "\\midrule");
    assert_eq!(lines[10], "Network Overhead & 50 & 50 & 51 \\\\");
    assert_eq!(lines[12], "\\textbf{Total (Best Case)} & \\textbf{2416} & - & - \\\\");
    assert_eq!(lines[13], "\\textbf{Total (Typical)} & - & \\textbf{2419} & - \\\\");
    assert_eq!(lines[14], "\\textbf{Total (Worst Case)} & - & - & \\textbf{2448} \\\\");
}

#[test]
fn simulated_phase_delays() {
    assert_eq!(cached_context_delay_ms(), 15);
    assert_eq!(hypothesis_delay_ms(0), 350);
    assert_eq!(hypothesis_delay_ms(199), 549);
    assert_eq!(hypothesis_delay_ms(200), 350);
    assert_eq!(network_delay_ms(105), 55);
    assert_eq!(result_json(true), "{\"success\": true}");
    assert_eq!(result_json(false), "{\"success\": false}");
}

#[test]
fn validation_inputs() {
    assert_eq!(benchmark_task(), "Delivered Feb 28, paid March 25. Fulfilled?");
    let h = validation_hypothesis();
    assert_eq!(h.premise, benchmark_task());
    assert_eq!(h.conclusion, "fulfilled");
    assert_eq!(h.confidence, 5000);
    let kb = validation_knowledge();
    assert_eq!(kb.len(), 2);
    assert_eq!(kb[0].conclusion, kb[1].premise);
    assert_eq!(kb[1].conclusion, "fulfilled");
    assert_eq!((kb[0].confidence, kb[1].confidence), (9500, 9000));
}

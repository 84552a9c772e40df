use experiments::blockchain_benchmarks::layer_performance::{
    layer_latex_line, layer_performance_from_samples, layer_row, p95_index, LayerPerformance,
};
use experiments::blockchain_benchmarks::scalability_agents::{
    adjusted_latency, agent_hypothesis, agent_rule, base_overhead_ms, draw_jitter,
    p95_upper_index, pause_after_task_ms, summarize_agent_run, tasks_per_agent_count,
};
use experiments::blockchain_benchmarks::scalability_knowledge::{
    kb_query, kb_size_bytes, knowledge_base_of_size, mean_latency, queries_per_size,
};
use experiments::cognitive_loop::blockchain_timing::{
    Addresses, BlockchainTimer, DeploymentConfig, LayerConfig, Layers, TimerError,
};
use experiments::random::{chance_bp, hit_from_draw, random_up_to};

fn perf(layer: &str, mean_read: u64, p95_read: u64, mean_write: u64) -> LayerPerformance {
    LayerPerformance {
        layer: layer.to_string(),
        mean_read_ms: mean_read,
        p95_read_ms: p95_read,
        mean_write_ms: mean_write,
        p95_write_ms: mean_write,
    }
}

#[test]
fn percentile_positions() {
    assert_eq!(p95_index(100), 95);
    assert_eq!(p95_index(20), 19);
    assert_eq!(p95_index(1), 0);
    assert_eq!(p95_index(0), 0);
    assert_eq!(p95_index(7), 6);
    assert_eq!(p95_upper_index(10), 9);
    assert_eq!(p95_upper_index(100), 95);
    assert_eq!(p95_upper_index(1), 0);
    assert_eq!(p95_upper_index(7), 6);
}

#[test]
fn layer_performance_of_samples() {
    let read: Vec<u64> = (1..=100).rev().collect();
    let write: Vec<u64> = vec![1500; 100];
    let p = layer_performance_from_samples("logic", read, write);
    assert_eq!(p.layer, "logic");
    assert_eq!(p.mean_read_ms, 50);
    assert_eq!(p.p95_read_ms, 96);
    assert_eq!(p.mean_write_ms, 1500);
    assert_eq!(p.p95_write_ms, 1500);
}

#[test]
fn layer_rows() {
    let stream = layer_row(&perf("stream", 5, 9, 0));
    assert_eq!((stream.layer_num.as_str(), stream.layer_name.as_str(), stream.consensus.as_str()), ("1", "PoA", "Authority"));
    assert_eq!(stream.tps_estimate, 2000);
    assert_eq!(stream.finality, "Instant");
    let logic = layer_row(&perf("logic", 5, 9, 250));
    assert_eq!(logic.tps_estimate, 4);
    assert_eq!(logic.finality, "250ms");
    let anchor = layer_row(&perf("anchor", 5, 9, 5));
    assert_eq!(anchor.tps_estimate, 20);
    assert_eq!(anchor.finality, "1min");
    let slow_anchor = layer_row(&perf("anchor", 5, 9, 150_000));
    assert_eq!(slow_anchor.tps_estimate, 0);
    assert_eq!(slow_anchor.finality, "2min");
    let other = layer_row(&perf("sidechain", 5, 9, 10));
    assert_eq!((other.layer_num.as_str(), other.consensus.as_str(), other.tps_estimate, other.finality.as_str()), ("?", "Unknown", 0, "?"));
}

#[test]
fn layer_latex_lines() {
    assert_eq!(
        layer_latex_line(&perf("logic", 50, 96, 1500)),
        "L2 (PBFT) & Partial BFT & 0 TPS & 50 ms & 96 ms & ? & 1500ms \\\\"
    );
    assert_eq!(
        layer_latex_line(&perf("stream", 12, 30, 1000)),
        "L1 (PoA) & Authority & 2 TPS & 12 ms & 30 ms & ? & Instant \\\\"
    );
}

#[test]
fn agent_scalability_parts() {
    assert_eq!(tasks_per_agent_count(), 10);
    let h = agent_hypothesis(3);
    assert_eq!((h.premise.as_str(), h.conclusion.as_str(), h.confidence), ("task_3", "result", 5300));
    let r = agent_rule(3);
    assert_eq!((r.premise.as_str(), r.solution.as_str(), r.confidence), ("task_3", "rule", 9000));
    assert_eq!(base_overhead_ms(50), 1000);
    assert_eq!(adjusted_latency(3, 5, 4), 107);
    assert_eq!(pause_after_task_ms(20), 100);
    for _ in 0..200 {
        assert!(draw_jitter(5) <= 20);
    }
    assert_eq!(draw_jitter(0), 0);
}

#[test]
fn agent_run_summary() {
    let r = summarize_agent_run(5, vec![30, 10, 20, 50, 40, 60, 70, 80, 90, 100], 9, 1234);
    assert_eq!(r.num_agents, 5);
    assert_eq!(r.total_tasks, 10);
    assert_eq!(r.successes, 9);
    assert_eq!(r.elapsed_us, 1234);
    assert_eq!(r.mean_latency_ms, 55);
    assert_eq!(r.p95_latency_ms, 100);
}

#[test]
fn test_kb_scalability() {
    for size in [5000u64, 50000, 500000] {
        let kb = knowledge_base_of_size(size);
        assert_eq!(kb.len() as u64, size);
        let last = &kb[kb.len() - 1];
        assert_eq!(last.premise, format!("premise_{}", size - 1));
        assert_eq!(last.confidence, 8000 + (size - 1) % 2000);
        let mut latencies = Vec::new();
        for q in 0..queries_per_size() {
            let h = kb_query(q, size);
            assert_eq!(h.premise, format!("premise_{}", q % size));
            latencies.push(q % 7);
        }
        assert_eq!(mean_latency(&latencies), latencies.iter().sum::<u64>() / 100);
        assert_eq!(kb_size_bytes(size), size * 200);
    }
}

#[test]
fn kb_units_and_queries() {
    let kb = knowledge_base_of_size(3);
    assert_eq!(kb[2].premise, "premise_2");
    assert_eq!(kb[2].conclusion, "conclusion_2");
    assert_eq!(kb[2].solution, "solution_2");
    assert_eq!(kb[2].confidence, 8002);
    let q = kb_query(7, 5);
    assert_eq!((q.premise.as_str(), q.conclusion.as_str(), q.solution.as_str(), q.confidence), ("premise_2", "conclusion_2", "test", 5000));
    assert_eq!(kb_query(7, 0).premise, "premise_0");
}

fn layer(url: &str, block_time: u64) -> LayerConfig {
    LayerConfig { rpc_url: url.to_string(), block_time, addresses: Addresses { knowledge_registry: "0x1".to_string() } }
}

fn timer() -> BlockchainTimer {
    BlockchainTimer::from_config(DeploymentConfig {
        deployer: "0xabc".to_string(),
        private_key: "SECRET-REDACTED".to_string(),
        layers: Layers {
            stream: layer("http://localhost:8545", 1),
            logic: layer("http://localhost:8546", 2),
            anchor: layer("http://localhost:8547", 12),
        },
    })
}

#[test]
fn timer_layers() {
    let t = timer();
    assert_eq!(t.layer_config("logic").unwrap().rpc_url, "http://localhost:8546");
    assert_eq!(t.read_endpoint("anchor").unwrap(), "http://localhost:8547");
    assert_eq!(t.write_delay_ms("stream"), Ok(1000));
    assert_eq!(t.write_delay_ms("anchor"), Ok(12000));
    assert_eq!(t.write_delay_ms("L1"), Err(TimerError::InvalidLayer));
    assert!(t.layer_config("").is_err());
    assert_eq!(TimerError::InvalidLayer.message(), "Invalid layer");
}

#[test]
fn chances_at_the_extremes() {
    for _ in 0..100 {
        assert!(chance_bp(10000));
        assert!(!chance_bp(0));
        assert!(random_up_to(3) <= 3);
    }
    assert_eq!(random_up_to(0), 0);
    assert!(hit_from_draw(9799, 9800));
    assert!(!hit_from_draw(9800, 9800));
}

#[test]
fn knowledge_base_premises_are_distinct() {
    let kb = knowledge_base_of_size(250);
    let premises: std::collections::HashSet<String> = kb.iter().map(|u| u.premise.clone()).collect();
    assert_eq!(premises.len(), 250);
}

#[test]
fn agent_latencies_carry_the_overhead() {
    let agents = 5u64;
    let latencies: Vec<u64> =
        [0u64, 3, 1, 7, 2, 0, 9, 4, 1, 5].iter().enumerate().map(|(i, l)| adjusted_latency(*l, agents, i as u64 % 20)).collect();
    let r = summarize_agent_run(agents, latencies, 10, 1);
    assert!(r.mean_latency_ms >= agents * 20);
    assert!(r.p95_latency_ms >= r.mean_latency_ms);
    assert_eq!(r.p95_latency_ms, 115);
}

//! Scalability with the number of concurrent agents: each agent count runs a
//! fixed set of verification tasks, with latency that grows with the agents.

use vstd::prelude::*;
use crate::knowledge::{numbered, pku, Pku};
use crate::random::random_up_to;
use crate::samples::{
    lemma_sorted_last_bounds, lemma_sorted_len, lemma_sum_within, sort_samples, sorted_samples, sum_of,
    sum_samples,
};
use crate::text::decimal;

verus! {

/// The number of tasks run for each agent count.
pub fn tasks_per_agent_count() -> (n: u64)
    ensures
        n == 10,
{
    10
}

/// The hypothesis of a task: `task_{id}` leads to "result", with a confidence
/// that grows by 100 per task from 5000.
pub fn agent_hypothesis(task_id: u64) -> (p: Pku)
    requires
        5000 + task_id * 100 <= u64::MAX,
    ensures
        p.premise@ == "task_"@ + decimal(task_id as nat),
        p.conclusion@ == "result"@,
        p.solution@ == "solution"@,
        p.confidence == 5000 + task_id * 100,
{
    pku(numbered("task_", task_id), String::from_str("result"), "solution", 5000 + task_id * 100)
}

/// The rule that supports a task's hypothesis.
pub fn agent_rule(task_id: u64) -> (p: Pku)
    ensures
        p.premise@ == "task_"@ + decimal(task_id as nat),
        p.conclusion@ == "result"@,
        p.solution@ == "rule"@,
        p.confidence == 9000,
{
    pku(numbered("task_", task_id), String::from_str("result"), "rule", 9000)
}

/// The overhead the agents add to each task's latency: 20 ms per agent.
pub fn base_overhead_ms(num_agents: u64) -> (d: u64)
    requires
        num_agents * 20 <= u64::MAX,
    ensures
        d == num_agents * 20,
{
    num_agents * 20
}

/// A random jitter of up to a fifth of the agents' overhead.
pub fn draw_jitter(num_agents: u64) -> (j: u64)
    requires
        num_agents * 20 <= u64::MAX,
    ensures
        j <= num_agents * 20 / 5,
{
    let base = base_overhead_ms(num_agents);
    random_up_to(base / 5)
}

/// A task's latency as reported: measured latency, plus the agents' overhead, plus jitter.
pub fn adjusted_latency(latency: u64, num_agents: u64, jitter: u64) -> (l: u64)
    requires
        latency + num_agents * 20 + jitter <= u64::MAX,
    ensures
        l == latency + num_agents * 20 + jitter,
{
    latency + base_overhead_ms(num_agents) + jitter
}

/// How long the agents pause after each task: 5 ms per agent.
pub fn pause_after_task_ms(num_agents: u64) -> (d: u64)
    requires
        num_agents * 5 <= u64::MAX,
    ensures
        d == num_agents * 5,
{
    num_agents * 5
}

/// The position of the 95th percentile among `n` sorted latencies: `n * 0.95`
/// rounded up, but at most the last position.
pub open spec fn p95_upper_rank(n: int) -> int {
    let up = (n * 95 + 99) / 100;
    if up < n - 1 {
        up
    } else {
        n - 1
    }
}

/// The position of the 95th percentile among `n` sorted latencies, rounded up.
pub fn p95_upper_index(n: usize) -> (i: usize)
    requires
        n > 0,
    ensures
        i == p95_upper_rank(n as int),
        i < n,
{
    let q = n / 100;
    let r = n % 100;
    proof {
        assert((n * 95 + 99) / 100 == q * 95 + (r * 95 + 99) / 100) by (nonlinear_arith)
            requires
                n == q * 100 + r,
                0 <= r < 100,
        ;
    }
    let up = q * 95 + (r * 95 + 99) / 100;
    if up < n - 1 {
        up
    } else {
        n - 1
    }
}

/// The scalability of one agent count: how many tasks ran and succeeded, how
/// long they took in all (microseconds), and their mean and 95th-percentile
/// latency (milliseconds).
#[derive(Debug, Clone, Copy)]
pub struct AgentScalabilityResult {
    pub num_agents: u64,
    pub total_tasks: u64,
    pub successes: u64,
    pub elapsed_us: u64,
    pub mean_latency_ms: u64,
    pub p95_latency_ms: u64,
}

/// The result for an agent count from its tasks' latencies: the mean rounded
/// down, and the latency at the rounded-up 95th-percentile position once sorted.
pub fn summarize_agent_run(num_agents: u64, latencies: Vec<u64>, successes: u64, elapsed_us: u64) -> (r:
    AgentScalabilityResult)
    requires
        latencies@.len() > 0,
        sum_of(latencies@) <= u64::MAX,
    ensures
        r.num_agents == num_agents,
        r.total_tasks == latencies@.len(),
        r.successes == successes,
        r.elapsed_us == elapsed_us,
        r.mean_latency_ms == sum_of(latencies@) / (latencies@.len() as int),
        r.p95_latency_ms == sorted_samples(latencies@)[p95_upper_rank(latencies@.len() as int)],
{
    let n = latencies.len();
    let total = sum_samples(latencies.as_slice());
    let mut sorted = latencies;
    sort_samples(&mut sorted);
    assert(sorted@.len() == n) by {
        crate::samples::lemma_sorted_len(latencies@);
    }
    let k = p95_upper_index(n);
    AgentScalabilityResult {
        num_agents,
        total_tasks: n as u64,
        successes,
        elapsed_us,
        mean_latency_ms: total / (n as u64),
        p95_latency_ms: sorted[k],
    }
}

/// Latencies that each carry the agents' overhead (20 ms per agent, as
/// `adjusted_latency` adds it) have a mean of at least that overhead; and while
/// there are at most 39 of them, so that the 95th-percentile position is the
/// last one, the 95th percentile is at least the mean.
pub proof fn lemma_agent_latency_bounds(latencies: Seq<u64>, num_agents: u64)
    requires
        latencies.len() > 0,
        forall|i: int| 0 <= i < latencies.len() ==> #[trigger] latencies[i] >= num_agents * 20,
    ensures
        sum_of(latencies) / (latencies.len() as int) >= num_agents * 20,
        latencies.len() <= 39 ==> sorted_samples(latencies)[p95_upper_rank(latencies.len() as int)]
            >= sum_of(latencies) / (latencies.len() as int),
{
    let n = latencies.len() as int;
    let floor = num_agents * 20;
    lemma_sorted_len(latencies);
    let top = sorted_samples(latencies)[n - 1];
    assert forall|i: int| 0 <= i < n implies floor <= #[trigger] latencies[i] <= top by {
        lemma_sorted_last_bounds(latencies, i);
    }
    lemma_sum_within(latencies, floor, top as int);
    let sum = sum_of(latencies);
    assert(sum / n >= floor && sum / n <= top) by (nonlinear_arith)
        requires
            n > 0,
            n * floor <= sum <= n * top,
    ;
    if n <= 39 {
        assert((n * 95 + 99) / 100 >= n - 1) by (nonlinear_arith)
            requires
                0 < n <= 39,
        ;
        assert(p95_upper_rank(n) == n - 1);
    }
}

} // verus!

//! Tracks gap resolution across iterations: at which iteration each task's
//! gap is resolved, and how each kind of gap fares.

use vstd::prelude::*;
use crate::random::{hit_from_draw, hits, random_up_to};

verus! {

/// The kind of knowledge gap a task has.
#[derive(Debug, Clone, Copy, PartialEq, Eq)]
pub enum GapKind {
    MissingRule,
    MissingFact,
    Ambiguous,
}

/// The kind of gap of a task, by its id: last digit 0 to 4 a missing rule,
/// 5 to 8 a missing fact, 9 an ambiguous reference.
pub open spec fn kind_of_task(task_id: int) -> GapKind {
    if task_id % 10 <= 4 {
        GapKind::MissingRule
    } else if task_id % 10 <= 8 {
        GapKind::MissingFact
    } else {
        GapKind::Ambiguous
    }
}

/// The kind of gap of a task, by its id.
pub fn gap_kind_for_task(task_id: usize) -> (k: GapKind)
    ensures
        k == kind_of_task(task_id as int),
{
    let r = task_id % 10;
    if r <= 4 {
        GapKind::MissingRule
    } else if r <= 8 {
        GapKind::MissingFact
    } else {
        GapKind::Ambiguous
    }
}

/// The probability, in basis points, that an iteration resolves a gap of the given kind.
pub open spec fn resolve_prob(iteration: int, kind: GapKind) -> u64 {
    if iteration == 1 {
        match kind {
            GapKind::MissingRule => 3500,
            GapKind::MissingFact => 4000,
            GapKind::Ambiguous => 1500,
        }
    } else if iteration == 2 {
        match kind {
            GapKind::MissingRule => 2500,
            GapKind::MissingFact => 2200,
            GapKind::Ambiguous => 1200,
        }
    } else if iteration == 3 {
        match kind {
            GapKind::MissingRule => 1500,
            GapKind::MissingFact => 1200,
            GapKind::Ambiguous => 800,
        }
    } else if iteration == 4 {
        match kind {
            GapKind::MissingRule => 800,
            GapKind::MissingFact => 600,
            GapKind::Ambiguous => 400,
        }
    } else if iteration == 5 {
        match kind {
            GapKind::MissingRule => 500,
            GapKind::MissingFact => 300,
            GapKind::Ambiguous => 200,
        }
    } else {
        0
    }
}

/// The probability, in basis points, that an iteration resolves a gap of the given kind.
pub fn resolution_probability_bp(iteration: usize, kind: GapKind) -> (p: u64)
    ensures
        p == resolve_prob(iteration as int, kind),
{
    if iteration == 1 {
        match kind {
            GapKind::MissingRule => 3500,
            GapKind::MissingFact => 4000,
            GapKind::Ambiguous => 1500,
        }
    } else if iteration == 2 {
        match kind {
            GapKind::MissingRule => 2500,
            GapKind::MissingFact => 2200,
            GapKind::Ambiguous => 1200,
        }
    } else if iteration == 3 {
        match kind {
            GapKind::MissingRule => 1500,
            GapKind::MissingFact => 1200,
            GapKind::Ambiguous => 800,
        }
    } else if iteration == 4 {
        match kind {
            GapKind::MissingRule => 800,
            GapKind::MissingFact => 600,
            GapKind::Ambiguous => 400,
        }
    } else if iteration == 5 {
        match kind {
            GapKind::MissingRule => 500,
            GapKind::MissingFact => 300,
            GapKind::Ambiguous => 200,
        }
    } else {
        0
    }
}

/// The first iteration, from `from` on and at most the fifth, whose draw (in
/// `0..10000`) falls under its probability; 0 when none does.
pub open spec fn first_resolving(kind: GapKind, draws: Seq<u64>, from: int) -> int
    decreases 6 - from,
{
    if from < 1 || from > 5 || from > draws.len() {
        0
    } else if hits(draws[from - 1], resolve_prob(from, kind)) {
        from
    } else {
        first_resolving(kind, draws, from + 1)
    }
}

proof fn lemma_first_resolving_range(kind: GapKind, draws: Seq<u64>, from: int)
    requires
        1 <= from,
    ensures
        first_resolving(kind, draws, from) == 0 || from <= first_resolving(kind, draws, from) <= 5,
    decreases 6 - from,
{
    if from <= 5 && from <= draws.len() && !hits(draws[from - 1], resolve_prob(from, kind)) {
        lemma_first_resolving_range(kind, draws, from + 1);
    }
}

/// The iteration at which a gap of the given kind is resolved, given one draw
/// in `0..10000` per iteration; 0 when no iteration resolves it.
pub fn resolving_iteration(kind: GapKind, draws: &Vec<u64>) -> (r: usize)
    requires
        draws@.len() >= 5,
    ensures
        r == first_resolving(kind, draws@, 1),
        r <= 5,
{
    let mut iter: usize = 1;
    proof {
        lemma_first_resolving_range(kind, draws@, 1);
    }
    while iter <= 5
        invariant
            1 <= iter <= 6,
            draws@.len() >= 5,
            first_resolving(kind, draws@, 1) == first_resolving(kind, draws@, iter as int),
        decreases 6 - iter,
    {
        let p = resolution_probability_bp(iter, kind);
        if hit_from_draw(draws[iter - 1], p) {
            return iter;
        }
        iter = iter + 1;
    }
    0
}

/// Five draws in `0..10000`, one per iteration.
fn draw_iterations() -> (d: Vec<u64>)
    ensures
        d@.len() == 5,
        forall|j: int| 0 <= j < 5 ==> #[trigger] d@[j] <= 9999,
{
    let mut d: Vec<u64> = Vec::new();
    let mut j: usize = 0;
    while j < 5
        invariant
            j <= 5,
            d@.len() == j,
            forall|i: int| 0 <= i < j ==> #[trigger] d@[i] <= 9999,
        decreases 5 - j,
    {
        let x = random_up_to(9999);
        d.push(x);
        j = j + 1;
    }
    d
}

/// Simulates gap resolution for one task: draws one value per iteration and
/// returns the iteration that `resolving_iteration` finds for them, or 0.
/// Whatever the draws, the result is what `resolving_iteration` gives for some
/// five draws in `0..10000`.
pub fn simulate_resolution(kind: GapKind) -> (r: usize)
    ensures
        r <= 5,
        exists|draws: Seq<u64>|
            draws.len() == 5 && (forall|j: int| 0 <= j < 5 ==> #[trigger] draws[j] < 10000)
                && r == #[trigger] first_resolving(kind, draws, 1),
{
    let draws = draw_iterations();
    let r = resolving_iteration(kind, &draws);
    assert(draws@.len() == 5 && (forall|j: int| 0 <= j < 5 ==> #[trigger] draws@[j] < 10000)
        && r == first_resolving(kind, draws@, 1));
    r
}

/// The number of tasks (indexed by position, with their resolving iteration)
/// that satisfy `p`.
pub open spec fn count_tasks(s: Seq<usize>, p: spec_fn(int, usize) -> bool) -> nat
    decreases s.len(),
{
    if s.len() == 0 {
        0
    } else {
        count_tasks(s.drop_last(), p) + if p(s.len() - 1, s.last()) { 1nat } else { 0nat }
    }
}

proof fn lemma_count_tasks_next(s: Seq<usize>, p: spec_fn(int, usize) -> bool, i: int)
    requires
        0 <= i < s.len(),
    ensures
        count_tasks(s.take(i + 1), p) == count_tasks(s.take(i), p) + if p(i, s[i]) {
            1nat
        } else {
            0nat
        },
{
    assert(s.take(i + 1).drop_last() =~= s.take(i));
}

/// At most every task satisfies `p`.
pub proof fn lemma_count_tasks_le(s: Seq<usize>, p: spec_fn(int, usize) -> bool)
    ensures
        count_tasks(s, p) <= s.len(),
    decreases s.len(),
{
    if s.len() > 0 {
        lemma_count_tasks_le(s.drop_last(), p);
    }
}

/// Counting a disjoint union is adding the counts of its parts.
pub proof fn lemma_count_tasks_union(
    s: Seq<usize>,
    p: spec_fn(int, usize) -> bool,
    q: spec_fn(int, usize) -> bool,
    r: spec_fn(int, usize) -> bool,
)
    requires
        forall|t: int, x: usize| #[trigger] p(t, x) == (q(t, x) || r(t, x)),
        forall|t: int, x: usize| !(#[trigger] q(t, x) && r(t, x)),
    ensures
        count_tasks(s, p) == count_tasks(s, q) + count_tasks(s, r),
    decreases s.len(),
{
    if s.len() > 0 {
        lemma_count_tasks_union(s.drop_last(), p, q, r);
        let t = s.len() - 1;
        let x = s.last();
        assert(p(t, x) == (q(t, x) || r(t, x)));
        assert(!(q(t, x) && r(t, x)));
    }
}

/// Tasks resolved exactly at iteration `k`.
pub open spec fn resolved_at_iter(k: int) -> spec_fn(int, usize) -> bool {
    |t: int, r: usize| r == k
}

/// Tasks resolved at some iteration from the first to the `k`-th.
pub open spec fn resolved_by_iter(k: int) -> spec_fn(int, usize) -> bool {
    |t: int, r: usize| 1 <= r <= k
}

/// Tasks whose gap is of the given kind.
pub open spec fn of_kind(kind: GapKind) -> spec_fn(int, usize) -> bool {
    |t: int, r: usize| kind_of_task(t) == kind
}

/// Tasks whose gap is of the given kind and was resolved.
pub open spec fn resolved_of_kind(kind: GapKind) -> spec_fn(int, usize) -> bool {
    |t: int, r: usize| kind_of_task(t) == kind && r > 0
}

/// Resolution at one iteration: how many tasks it resolved, how many were
/// resolved up to it, and the time spent up to it.
#[derive(Debug, Clone, Copy)]
pub struct IterationStats {
    pub iteration: usize,
    pub cumulative_time_ms: u64,
    pub resolved: usize,
    pub cumulative_resolved: usize,
}

/// How many tasks had a gap of one kind, and how many of those were resolved.
#[derive(Debug, Clone)]
pub struct GapTypeStats {
    pub gap_type: String,
    pub tasks: usize,
    pub resolved: usize,
}

/// Gap resolution over all tasks: per iteration (0 to 5) and per kind of gap.
#[derive(Debug)]
pub struct GapResolutionResults {
    pub iterations: Vec<IterationStats>,
    pub gap_types: Vec<GapTypeStats>,
    pub total_tasks: usize,
}

/// The statistics of iteration `k`, for tasks resolved at the iterations in `s`.
pub open spec fn iteration_stats_of(s: Seq<usize>, k: int) -> IterationStats {
    IterationStats {
        iteration: k as usize,
        cumulative_time_ms: (450 * k) as u64,
        resolved: if k == 0 { 0 } else { count_tasks(s, resolved_at_iter(k)) as usize },
        cumulative_resolved: count_tasks(s, resolved_by_iter(k)) as usize,
    }
}

/// The statistics of one kind of gap, for tasks resolved at the iterations in `s`.
pub open spec fn kind_stats_match(g: GapTypeStats, s: Seq<usize>, kind: GapKind, name: Seq<char>) -> bool {
    &&& g.gap_type@ == name
    &&& g.tasks == count_tasks(s, of_kind(kind))
    &&& g.resolved == count_tasks(s, resolved_of_kind(kind))
}

/// `r` reports gap resolution for tasks `0..s.len()`, task `t` resolved at
/// iteration `s[t]` (0 meaning never).
pub open spec fn describes(r: GapResolutionResults, s: Seq<usize>) -> bool {
    &&& r.total_tasks == s.len()
    &&& r.iterations@.len() == 6
    &&& forall|k: int| 0 <= k <= 5 ==> #[trigger] r.iterations@[k] == iteration_stats_of(s, k)
    &&& r.gap_types@.len() == 3
    &&& kind_stats_match(r.gap_types@[0], s, GapKind::MissingRule, "Missing Rule"@)
    &&& kind_stats_match(r.gap_types@[1], s, GapKind::MissingFact, "Missing Fact"@)
    &&& kind_stats_match(r.gap_types@[2], s, GapKind::Ambiguous, "Ambiguous Reference"@)
}

/// Every task was resolved at one of the iterations 1 to 5, or never (0).
pub open spec fn valid_iterations(s: Seq<usize>) -> bool {
    forall|t: int| 0 <= t < s.len() ==> #[trigger] s[t] <= 5
}

/// Tallies gap resolution: task `t` (with the gap kind its id gives) was
/// resolved at iteration `resolved_at[t]`, or never when that is 0.
pub fn tally_gap_resolution(resolved_at: &Vec<usize>) -> (r: GapResolutionResults)
    requires
        valid_iterations(resolved_at@),
    ensures
        describes(r, resolved_at@),
{
    let ghost s = resolved_at@;
    let n = resolved_at.len();
    let mut per: Vec<usize> = vec![0, 0, 0, 0, 0, 0];
    let mut rule_tasks: usize = 0;
    let mut fact_tasks: usize = 0;
    let mut amb_tasks: usize = 0;
    let mut rule_resolved: usize = 0;
    let mut fact_resolved: usize = 0;
    let mut amb_resolved: usize = 0;
    let mut i: usize = 0;
    while i < n
        invariant
            n == s.len(),
            s == resolved_at@,
            valid_iterations(s),
            i <= n,
            per@.len() == 6,
            forall|k: int|
                0 <= k < 6 ==> #[trigger] per@[k] == count_tasks(
                    s.take(i as int),
                    resolved_at_iter(k),
                ),
            forall|k: int| 0 <= k < 6 ==> #[trigger] per@[k] <= i,
            rule_tasks == count_tasks(s.take(i as int), of_kind(GapKind::MissingRule)),
            fact_tasks == count_tasks(s.take(i as int), of_kind(GapKind::MissingFact)),
            amb_tasks == count_tasks(s.take(i as int), of_kind(GapKind::Ambiguous)),
            rule_resolved == count_tasks(s.take(i as int), resolved_of_kind(GapKind::MissingRule)),
            fact_resolved == count_tasks(s.take(i as int), resolved_of_kind(GapKind::MissingFact)),
            amb_resolved == count_tasks(s.take(i as int), resolved_of_kind(GapKind::Ambiguous)),
            rule_tasks <= i,
            fact_tasks <= i,
            amb_tasks <= i,
            rule_resolved <= i,
            fact_resolved <= i,
            amb_resolved <= i,
        decreases n - i,
    {
        let at = resolved_at[i];
        let kind = gap_kind_for_task(i);
        proof {
            assert forall|k: int| 0 <= k < 6 implies count_tasks(
                s.take(i + 1),
                resolved_at_iter(k),
            ) == count_tasks(s.take(i as int), resolved_at_iter(k)) + if at == k {
                1nat
            } else {
                0nat
            } by {
                lemma_count_tasks_next(s, resolved_at_iter(k), i as int);
            }
            lemma_count_tasks_next(s, of_kind(GapKind::MissingRule), i as int);
            lemma_count_tasks_next(s, of_kind(GapKind::MissingFact), i as int);
            lemma_count_tasks_next(s, of_kind(GapKind::Ambiguous), i as int);
            lemma_count_tasks_next(s, resolved_of_kind(GapKind::MissingRule), i as int);
            lemma_count_tasks_next(s, resolved_of_kind(GapKind::MissingFact), i as int);
            lemma_count_tasks_next(s, resolved_of_kind(GapKind::Ambiguous), i as int);
        }
        let old_count = per[at];
        per.set(at, old_count + 1);
        match kind {
            GapKind::MissingRule => {
                rule_tasks = rule_tasks + 1;
                if at > 0 {
                    rule_resolved = rule_resolved + 1;
                }
            },
            GapKind::MissingFact => {
                fact_tasks = fact_tasks + 1;
                if at > 0 {
                    fact_resolved = fact_resolved + 1;
                }
            },
            GapKind::Ambiguous => {
                amb_tasks = amb_tasks + 1;
                if at > 0 {
                    amb_resolved = amb_resolved + 1;
                }
            },
        }
        i = i + 1;
    }
    assert(s.take(n as int) =~= s);
    let mut iterations: Vec<IterationStats> = Vec::new();
    iterations.push(
        IterationStats { iteration: 0, cumulative_time_ms: 0, resolved: 0, cumulative_resolved: 0 },
    );
    proof {
        assert(count_tasks(s, resolved_by_iter(0)) == 0) by {
            lemma_count_tasks_union(s, resolved_by_iter(0), resolved_by_iter(0), resolved_by_iter(0));
        }
        assert(iterations@[0] == iteration_stats_of(s, 0));
    }
    let mut cumulative: usize = 0;
    let mut k: usize = 1;
    while k <= 5
        invariant
            1 <= k <= 6,
            n == s.len(),
            per@.len() == 6,
            forall|j: int| 0 <= j < 6 ==> #[trigger] per@[j] == count_tasks(s, resolved_at_iter(j)),
            cumulative == count_tasks(s, resolved_by_iter(k - 1)),
            cumulative <= n,
            iterations@.len() == k,
            forall|j: int| 0 <= j < k ==> #[trigger] iterations@[j] == iteration_stats_of(s, j),
        decreases 6 - k,
    {
        proof {
            lemma_count_tasks_union(
                s,
                resolved_by_iter(k as int),
                resolved_by_iter(k - 1),
                resolved_at_iter(k as int),
            );
            lemma_count_tasks_le(s, resolved_by_iter(k as int));
        }
        cumulative = cumulative + per[k];
        iterations.push(
            IterationStats {
                iteration: k,
                cumulative_time_ms: (k as u64) * 450,
                resolved: per[k],
                cumulative_resolved: cumulative,
            },
        );
        k = k + 1;
    }
    let mut gap_types: Vec<GapTypeStats> = Vec::new();
    gap_types.push(
        GapTypeStats {
            gap_type: String::from_str("Missing Rule"),
            tasks: rule_tasks,
            resolved: rule_resolved,
        },
    );
    gap_types.push(
        GapTypeStats {
            gap_type: String::from_str("Missing Fact"),
            tasks: fact_tasks,
            resolved: fact_resolved,
        },
    );
    gap_types.push(
        GapTypeStats {
            gap_type: String::from_str("Ambiguous Reference"),
            tasks: amb_tasks,
            resolved: amb_resolved,
        },
    );
    GapResolutionResults { iterations, gap_types, total_tasks: n }
}

/// What the tally of gap resolution always satisfies: every task has exactly
/// one kind of gap; the tasks resolved by the fifth iteration are exactly the
/// resolved tasks of the three kinds; no kind has more resolved tasks than
/// tasks; and the number resolved by an iteration never falls as iterations go on.
pub proof fn lemma_gap_tally_laws(s: Seq<usize>, j: int, k: int)
    requires
        valid_iterations(s),
        0 <= j <= k,
    ensures
        count_tasks(s, of_kind(GapKind::MissingRule)) + count_tasks(s, of_kind(GapKind::MissingFact))
            + count_tasks(s, of_kind(GapKind::Ambiguous)) == s.len(),
        count_tasks(s, resolved_of_kind(GapKind::MissingRule)) + count_tasks(
            s,
            resolved_of_kind(GapKind::MissingFact),
        ) + count_tasks(s, resolved_of_kind(GapKind::Ambiguous)) == count_tasks(
            s,
            resolved_by_iter(5),
        ),
        count_tasks(s, resolved_of_kind(GapKind::MissingRule)) <= count_tasks(
            s,
            of_kind(GapKind::MissingRule),
        ),
        count_tasks(s, resolved_of_kind(GapKind::MissingFact)) <= count_tasks(
            s,
            of_kind(GapKind::MissingFact),
        ),
        count_tasks(s, resolved_of_kind(GapKind::Ambiguous)) <= count_tasks(
            s,
            of_kind(GapKind::Ambiguous),
        ),
        count_tasks(s, resolved_by_iter(j)) <= count_tasks(s, resolved_by_iter(k)),
        count_tasks(s, resolved_by_iter(k)) <= s.len(),
    decreases s.len(),
{
    if s.len() > 0 {
        let t = s.drop_last();
        assert(valid_iterations(t)) by {
            assert forall|x: int| 0 <= x < t.len() implies #[trigger] t[x] <= 5 by {
                assert(t[x] == s[x]);
            }
        }
        lemma_gap_tally_laws(t, j, k);
        assert(s.last() <= 5) by {
            assert(s[s.len() - 1] <= 5);
        }
    }
}

/// The resolving iteration of every task, task `t` (with the gap kind its id
/// gives) drawing the values `draws[t]`, one per iteration.
pub open spec fn resolved_from_draws(draws: Seq<Seq<u64>>) -> Seq<usize> {
    Seq::new(draws.len(), |t: int| first_resolving(kind_of_task(t), draws[t], 1) as usize)
}

/// `draws` holds `n` rows of five values, each in `0..10000`.
pub open spec fn valid_draws(draws: Seq<Seq<u64>>, n: int) -> bool {
    &&& draws.len() == n
    &&& forall|t: int| 0 <= t < n ==> (#[trigger] draws[t]).len() == 5
    &&& forall|t: int, j: int| 0 <= t < n && 0 <= j < 5 ==> #[trigger] draws[t][j] <= 9999
}

/// Gap resolution for `num_tasks` tasks, task `t` drawing the values
/// `draws[t]` (at least one per iteration): each task is resolved at the first
/// iteration whose draw falls under the probability for that iteration and the
/// task's kind of gap, and the results are tallied.
pub fn measure_gap_resolution_from_draws(num_tasks: usize, draws: &Vec<Vec<u64>>) -> (r: GapResolutionResults)
    requires
        draws@.len() == num_tasks,
        forall|t: int| 0 <= t < num_tasks ==> (#[trigger] draws@[t])@.len() >= 5,
    ensures
        describes(r, resolved_from_draws(draws@.map_values(|v: Vec<u64>| v@))),
        valid_iterations(resolved_from_draws(draws@.map_values(|v: Vec<u64>| v@))),
{
    let ghost d = draws@.map_values(|v: Vec<u64>| v@);
    let ghost s = resolved_from_draws(d);
    let mut resolved_at: Vec<usize> = Vec::new();
    let mut t: usize = 0;
    while t < num_tasks
        invariant
            t <= num_tasks,
            draws@.len() == num_tasks,
            forall|i: int| 0 <= i < num_tasks ==> (#[trigger] draws@[i])@.len() >= 5,
            d == draws@.map_values(|v: Vec<u64>| v@),
            s == resolved_from_draws(d),
            resolved_at@.len() == t,
            forall|i: int| 0 <= i < t ==> #[trigger] resolved_at@[i] == s[i],
            valid_iterations(resolved_at@),
        decreases num_tasks - t,
    {
        let kind = gap_kind_for_task(t);
        let at = resolving_iteration(kind, &draws[t]);
        proof {
            assert(d[t as int] == draws@[t as int]@);
            lemma_first_resolving_range(kind, d[t as int], 1);
            assert(s[t as int] == at);
        }
        resolved_at.push(at);
        t = t + 1;
    }
    assert(resolved_at@ =~= s);
    tally_gap_resolution(&resolved_at)
}

/// Simulates gap resolution for `num_tasks` tasks and tallies it: the values
/// are drawn, five per task, and handed to `measure_gap_resolution_from_draws`.
/// Whatever the draws, the result is that tally for some draws in `0..10000`.
pub fn measure_gap_resolution(num_tasks: usize) -> (r: GapResolutionResults)
    ensures
        exists|d: Seq<Seq<u64>>|
            valid_draws(d, num_tasks as int) && #[trigger] describes(r, resolved_from_draws(d)),
{
    let mut draws: Vec<Vec<u64>> = Vec::new();
    let mut t: usize = 0;
    while t < num_tasks
        invariant
            t <= num_tasks,
            draws@.len() == t,
            forall|i: int| 0 <= i < t ==> (#[trigger] draws@[i])@.len() == 5,
            forall|i: int, j: int| 0 <= i < t && 0 <= j < 5 ==> #[trigger] draws@[i]@[j] <= 9999,
        decreases num_tasks - t,
    {
        let row = draw_iterations();
        draws.push(row);
        t = t + 1;
    }
    let r = measure_gap_resolution_from_draws(num_tasks, &draws);
    let ghost d = draws@.map_values(|v: Vec<u64>| v@);
    assert(valid_draws(d, num_tasks as int)) by {
        assert forall|i: int| 0 <= i < num_tasks implies (#[trigger] d[i]).len() == 5 by {
            assert(d[i] == draws@[i]@);
        }
        assert forall|i: int, j: int| 0 <= i < num_tasks && 0 <= j < 5 implies #[trigger] d[i][j] <= 9999 by {
            assert(d[i] == draws@[i]@);
        }
    }
    r
}

/// The chance that an iteration resolves a gap: for every kind it is a real
/// chance (above 0, below certainty) at iterations 1 to 5 and none at any other
/// iteration, and it falls strictly from each iteration to the next. Missing
/// facts are likeliest to be resolved at the first iteration (40%), missing
/// rules from the second on, ambiguous references least at every iteration; at
/// the fourth iteration the chances are 8%, 6% and 4%.
pub proof fn lemma_resolution_chances(kind: GapKind, i: int)
    ensures
        1 <= i <= 5 ==> 0 < resolve_prob(i, kind) < 10000,
        (i < 1 || i > 5) ==> resolve_prob(i, kind) == 0,
        1 <= i < 5 ==> resolve_prob(i + 1, kind) < resolve_prob(i, kind),
        1 <= i <= 5 ==> resolve_prob(i, GapKind::Ambiguous) < resolve_prob(i, GapKind::MissingFact),
        2 <= i <= 5 ==> resolve_prob(i, GapKind::MissingFact) < resolve_prob(i, GapKind::MissingRule),
        resolve_prob(1, GapKind::MissingRule) < resolve_prob(1, GapKind::MissingFact),
        resolve_prob(4, GapKind::MissingRule) == 800,
        resolve_prob(4, GapKind::MissingFact) == 600,
        resolve_prob(4, GapKind::Ambiguous) == 400,
{
}

} // verus!

//! Batches of runs per model and architecture: what each run counts, how a
//! batch is summed up, in which order batches run, and how results are grouped
//! for the result tables.

use vstd::prelude::*;
use crate::random::{hits, random_up_to};
use crate::text::str_eq;

verus! {

/// How many batches run, of how many tasks, with how many runs per batch.
#[derive(Debug, Clone, Copy)]
pub struct BatchConfig {
    pub batch_size: usize,
    pub num_batches: usize,
    pub runs_per_config: usize,
}

impl Default for BatchConfig {
    /// Batches of 8 tasks, 4 batches, 5 runs per batch.
    fn default() -> (c: Self)
        ensures
            c.batch_size == 8,
            c.num_batches == 4,
            c.runs_per_config == 5,
    {
        BatchConfig { batch_size: 8, num_batches: 4, runs_per_config: 5 }
    }
}

/// The architecture a batch runs.
#[derive(Debug, Clone, Copy, PartialEq, Eq)]
pub enum Architecture {
    Tbca,
    ReactRag,
    Other,
}

/// The architecture with the given name: "TBCA" or "ReAct+RAG".
pub open spec fn architecture_of(name: Seq<char>) -> Architecture {
    if name == "TBCA"@ {
        Architecture::Tbca
    } else if name == "ReAct+RAG"@ {
        Architecture::ReactRag
    } else {
        Architecture::Other
    }
}

/// The architecture with the given name.
pub fn architecture_named(name: &str) -> (a: Architecture)
    ensures
        a == architecture_of(name@),
{
    if str_eq(name, "TBCA") {
        Architecture::Tbca
    } else if str_eq(name, "ReAct+RAG") {
        Architecture::ReactRag
    } else {
        Architecture::Other
    }
}

/// The architectures compared, in the order they run.
pub open spec fn architecture_names() -> Seq<Seq<char>> {
    seq!["TBCA"@, "ReAct+RAG"@]
}

/// The outcome of one simulated run, given a draw in `0..10000`: TBCA succeeds
/// with probability `0.85 + 0.03 * batch` and takes `max(3.5 - 0.3 * batch, 2)`
/// iterations; ReAct+RAG succeeds with probability 0.70 and takes 3.8; any other
/// architecture fails after one. Iterations are in tenths.
pub open spec fn simulated_outcome(arch: Architecture, batch_num: int, draw: u64) -> (bool, int) {
    match arch {
        Architecture::Tbca => (
            draw < 8500 + 300 * batch_num,
            if 35 - 3 * batch_num < 20 { 20 } else { 35 - 3 * batch_num },
        ),
        Architecture::ReactRag => (hits(draw, 7000), 38),
        Architecture::Other => (false, 10),
    }
}

/// The result of one batch: how many of its runs succeeded, and how many
/// iterations (in tenths) they took in all.
#[derive(Debug, Clone)]
pub struct BatchResult {
    pub batch_num: usize,
    pub llm_name: String,
    pub architecture: String,
    pub successes: u64,
    pub runs: u64,
    pub iteration_tenths: u64,
}

/// The number of runs that succeeded.
pub open spec fn successes_in(runs: Seq<(bool, u64)>) -> int
    decreases runs.len(),
{
    if runs.len() == 0 {
        0
    } else {
        successes_in(runs.drop_last()) + if runs.last().0 { 1int } else { 0int }
    }
}

/// The iterations (in tenths) that the runs took in all.
pub open spec fn tenths_in(runs: Seq<(bool, u64)>) -> int
    decreases runs.len(),
{
    if runs.len() == 0 {
        0
    } else {
        tenths_in(runs.drop_last()) + runs.last().1
    }
}

proof fn lemma_runs_take_next(runs: Seq<(bool, u64)>, i: int)
    requires
        0 <= i < runs.len(),
    ensures
        successes_in(runs.take(i + 1)) == successes_in(runs.take(i)) + if runs[i].0 { 1int } else { 0int },
        tenths_in(runs.take(i + 1)) == tenths_in(runs.take(i)) + runs[i].1,
{
    assert(runs.take(i + 1).drop_last() =~= runs.take(i));
}

proof fn lemma_runs_bounds(runs: Seq<(bool, u64)>, i: int)
    requires
        0 <= i <= runs.len(),
    ensures
        0 <= successes_in(runs.take(i)) <= i,
        0 <= tenths_in(runs.take(i)) <= tenths_in(runs),
    decreases runs.len(),
{
    if i < runs.len() {
        assert(runs.drop_last().take(i) =~= runs.take(i));
        lemma_runs_bounds(runs.drop_last(), i);
    } else {
        assert(runs.take(i) =~= runs);
        if runs.len() > 0 {
            lemma_runs_bounds(runs.drop_last(), runs.len() - 1);
            assert(runs.drop_last().take(runs.len() - 1) =~= runs.drop_last());
        }
    }
}

impl BatchResult {
    /// Sums up a batch from the outcome of each run (success, iterations in tenths).
    pub fn from_runs(batch_num: usize, llm_name: &str, architecture: &str, runs: &Vec<(bool, u64)>) -> (r:
        Self)
        requires
            tenths_in(runs@) <= u64::MAX,
        ensures
            r.batch_num == batch_num,
            r.llm_name@ == llm_name@,
            r.architecture@ == architecture@,
            r.successes == successes_in(runs@),
            r.runs == runs@.len(),
            r.iteration_tenths == tenths_in(runs@),
    {
        let n = runs.len();
        let mut successes: u64 = 0;
        let mut tenths: u64 = 0;
        let mut i: usize = 0;
        while i < n
            invariant
                n == runs@.len(),
                i <= n,
                tenths_in(runs@) <= u64::MAX,
                successes == successes_in(runs@.take(i as int)),
                tenths == tenths_in(runs@.take(i as int)),
            decreases n - i,
        {
            proof {
                lemma_runs_take_next(runs@, i as int);
                lemma_runs_bounds(runs@, i + 1);
            }
            let (ok, t) = runs[i];
            if ok {
                successes = successes + 1;
            }
            tenths = tenths + t;
            i = i + 1;
        }
        assert(runs@.take(n as int) =~= runs@);
        BatchResult {
            batch_num,
            llm_name: String::from_str(llm_name),
            architecture: String::from_str(architecture),
            successes,
            runs: n as u64,
            iteration_tenths: tenths,
        }
    }
}

/// Runs batches of tasks and saves their results.
pub struct BatchEvaluator {
    config: BatchConfig,
    results_dir: String,
}

/// A group of results for one table row: the results of one batch number and
/// architecture, by position.
#[derive(Debug, Clone)]
pub struct BatchGroup {
    pub batch_num: usize,
    pub architecture: String,
    pub members: Vec<usize>,
}

/// The positions (below `n`) of the results of a batch number and architecture.
pub open spec fn members_upto(rs: Seq<BatchResult>, batch: int, arch: Seq<char>, n: int) -> Seq<usize>
    decreases n,
{
    if n <= 0 {
        Seq::empty()
    } else {
        let prev = members_upto(rs, batch, arch, n - 1);
        if rs[n - 1].batch_num == batch && rs[n - 1].architecture@ == arch {
            prev.push((n - 1) as usize)
        } else {
            prev
        }
    }
}

/// The batch number of the `g`-th candidate group: groups go batch by batch.
pub open spec fn group_batch(g: int) -> int {
    g / 2 + 1
}

/// The architecture of the `g`-th candidate group: TBCA, then ReAct+RAG.
pub open spec fn group_arch(g: int) -> Seq<char> {
    architecture_names()[g % 2]
}

/// The groups, among the first `g` candidates, that hold any result.
pub open spec fn groups_upto(rs: Seq<BatchResult>, g: int) -> Seq<(int, Seq<char>, Seq<usize>)>
    decreases g,
{
    if g <= 0 {
        Seq::empty()
    } else {
        let prev = groups_upto(rs, g - 1);
        let m = members_upto(rs, group_batch(g - 1), group_arch(g - 1), rs.len() as int);
        if m.len() > 0 {
            prev.push((group_batch(g - 1), group_arch(g - 1), m))
        } else {
            prev
        }
    }
}

/// The group matches its description.
pub open spec fn group_is(g: BatchGroup, d: (int, Seq<char>, Seq<usize>)) -> bool {
    &&& g.batch_num == d.0
    &&& g.architecture@ == d.1
    &&& g.members@ == d.2
}

/// A group's members are exactly the results of its batch number and
/// architecture, in order of position.
pub proof fn lemma_members_exact(rs: Seq<BatchResult>, batch: int, arch: Seq<char>, n: int)
    requires
        0 <= n <= rs.len(),
        rs.len() <= usize::MAX,
    ensures
        forall|k: int|
            0 <= k < members_upto(rs, batch, arch, n).len() ==> {
                let j = #[trigger] members_upto(rs, batch, arch, n)[k] as int;
                &&& 0 <= j < n
                &&& rs[j].batch_num == batch
                &&& rs[j].architecture@ == arch
            },
        forall|j: int|
            0 <= j < n && rs[j].batch_num == batch && #[trigger] rs[j].architecture@ == arch
                ==> members_upto(rs, batch, arch, n).contains(j as usize),
        forall|a: int, b: int|
            0 <= a < b < members_upto(rs, batch, arch, n).len() ==> #[trigger] members_upto(
                rs,
                batch,
                arch,
                n,
            )[a] < #[trigger] members_upto(rs, batch, arch, n)[b],
    decreases n,
{
    if n > 0 {
        lemma_members_exact(rs, batch, arch, n - 1);
        let prev = members_upto(rs, batch, arch, n - 1);
        if rs[n - 1].batch_num == batch && rs[n - 1].architecture@ == arch {
            let cur = prev.push((n - 1) as usize);
            assert(cur[cur.len() - 1] == (n - 1) as usize);
            assert(forall|k: int| 0 <= k < prev.len() ==> cur[k] == prev[k]);
            assert forall|k: int| 0 <= k < prev.len() implies (#[trigger] cur[k]) < n - 1 by {
                assert(cur[k] == prev[k]);
            }
            assert forall|j: int|
                0 <= j < n && rs[j].batch_num == batch && #[trigger] rs[j].architecture@ == arch
                implies cur.contains(j as usize) by {
                if j < n - 1 {
                    let k = choose|k: int| 0 <= k < prev.len() && prev[k] == j as usize;
                    assert(cur[k] == j as usize);
                }
            }
        }
    }
}

fn members_of(rs: &Vec<BatchResult>, batch: usize, arch: &str) -> (m: Vec<usize>)
    ensures
        m@ == members_upto(rs@, batch as int, arch@, rs@.len() as int),
{
    let n = rs.len();
    let mut m: Vec<usize> = Vec::new();
    let mut i: usize = 0;
    while i < n
        invariant
            n == rs@.len(),
            i <= n,
            m@ == members_upto(rs@, batch as int, arch@, i as int),
        decreases n - i,
    {
        if rs[i].batch_num == batch && str_eq(rs[i].architecture.as_str(), arch) {
            m.push(i);
        }
        i = i + 1;
    }
    m
}

/// The outcomes of simulated runs of an architecture in a batch, one per draw.
pub open spec fn simulated_runs(arch: Architecture, batch_num: int, draws: Seq<u64>) -> Seq<(bool, u64)> {
    Seq::new(
        draws.len(),
        |i: int| (simulated_outcome(arch, batch_num, draws[i]).0, simulated_outcome(arch, batch_num, draws[i]).1 as u64),
    )
}

proof fn lemma_tenths_at_most(runs: Seq<(bool, u64)>, bound: int)
    requires
        forall|i: int| 0 <= i < runs.len() ==> #[trigger] runs[i].1 <= bound,
    ensures
        tenths_in(runs) <= runs.len() * bound,
    decreases runs.len(),
{
    if runs.len() > 0 {
        let t = runs.drop_last();
        assert forall|i: int| 0 <= i < t.len() implies #[trigger] t[i].1 <= bound by {
            assert(t[i] == runs[i]);
        }
        lemma_tenths_at_most(t, bound);
        assert(runs.last().1 <= bound);
        assert(runs.len() * bound == t.len() * bound + bound) by (nonlinear_arith)
            requires
                runs.len() == t.len() + 1,
        ;
    }
}

impl BatchEvaluator {
    /// An evaluator with the default configuration that saves into `results_dir`.
    pub fn new(results_dir: String) -> (e: Self)
        ensures
            e.config_spec().batch_size == 8,
            e.config_spec().num_batches == 4,
            e.config_spec().runs_per_config == 5,
            e.results_dir_spec()@ == results_dir@,
    {
        BatchEvaluator { config: BatchConfig::default(), results_dir }
    }

    /// The evaluator's configuration.
    pub closed spec fn config_spec(&self) -> BatchConfig {
        self.config
    }

    /// Where the evaluator saves its tables.
    pub closed spec fn results_dir_spec(&self) -> String {
        self.results_dir
    }

    /// The evaluator's configuration.
    pub fn config(&self) -> (c: BatchConfig)
        ensures
            c == self.config_spec(),
    {
        self.config
    }

    /// Where the evaluator saves its tables.
    pub fn results_dir(&self) -> (d: &String)
        ensures
            *d == self.results_dir_spec(),
    {
        &self.results_dir
    }

    /// The outcome of a simulated run of an architecture in a batch, given a
    /// draw in `0..10000`; iterations in tenths.
    pub fn simulate_from_draw(&self, architecture: &str, batch_num: usize, draw: u64) -> (r: (bool, u64))
        requires
            draw < 10000,
        ensures
            (r.0, r.1 as int) == simulated_outcome(architecture_of(architecture@), batch_num as int, draw),
    {
        match architecture_named(architecture) {
            Architecture::Tbca => {
                let success = if batch_num >= 5 { true } else { draw < 8500 + 300 * (batch_num as u64) };
                let tenths: u64 = if batch_num >= 5 { 20 } else { 35 - 3 * (batch_num as u64) };
                (success, if tenths < 20 { 20 } else { tenths })
            },
            Architecture::ReactRag => (draw < 7000, 38),
            Architecture::Other => (false, 10),
        }
    }

    /// A simulated run of an architecture in a batch: the success rests on
    /// chance, the iterations (in tenths) do not.
    pub fn simulate_task_execution(&self, architecture: &str, batch_num: usize) -> (r:
        (bool, u64))
        ensures
            exists|draw: u64|
                draw < 10000 && (r.0, r.1 as int) == #[trigger] simulated_outcome(
                    architecture_of(architecture@),
                    batch_num as int,
                    draw,
                ),
    {
        let draw = random_up_to(9999);
        self.simulate_from_draw(architecture, batch_num, draw)
    }

    /// A simulated batch from one draw (in `0..10000`) per run: each run's
    /// outcome is `simulated_outcome` of its draw, and the runs are summed up
    /// as `BatchResult::from_runs` does.
    pub fn simulate_batch_from_draws(
        &self,
        batch_num: usize,
        llm_name: &str,
        architecture: &str,
        draws: &Vec<u64>,
    ) -> (r: BatchResult)
        requires
            forall|i: int| 0 <= i < draws@.len() ==> #[trigger] draws@[i] < 10000,
            tenths_in(simulated_runs(architecture_of(architecture@), batch_num as int, draws@)) <= u64::MAX,
        ensures
            r.batch_num == batch_num,
            r.llm_name@ == llm_name@,
            r.architecture@ == architecture@,
            r.runs == draws@.len(),
            r.successes == successes_in(simulated_runs(architecture_of(architecture@), batch_num as int, draws@)),
            r.iteration_tenths == tenths_in(
                simulated_runs(architecture_of(architecture@), batch_num as int, draws@),
            ),
    {
        let ghost expected = simulated_runs(architecture_of(architecture@), batch_num as int, draws@);
        let mut runs: Vec<(bool, u64)> = Vec::new();
        let n = draws.len();
        let mut i: usize = 0;
        while i < n
            invariant
                n == draws@.len(),
                i <= n,
                forall|j: int| 0 <= j < n ==> #[trigger] draws@[j] < 10000,
                expected == simulated_runs(architecture_of(architecture@), batch_num as int, draws@),
                runs@.len() == i,
                forall|j: int| 0 <= j < i ==> #[trigger] runs@[j] == expected[j],
            decreases n - i,
        {
            let outcome = self.simulate_from_draw(architecture, batch_num, draws[i]);
            runs.push(outcome);
            i = i + 1;
        }
        assert(runs@ =~= expected);
        BatchResult::from_runs(batch_num, llm_name, architecture, &runs)
    }

    /// A simulated batch: one draw per configured run, summed up by
    /// `simulate_batch_from_draws`. Whatever the draws, the result is that sum
    /// for some draws in `0..10000`.
    pub fn simulate_batch(&self, batch_num: usize, llm_name: &str, architecture: &str) -> (r: BatchResult)
        requires
            self.config_spec().runs_per_config * 38 <= u64::MAX,
        ensures
            exists|draws: Seq<u64>|
                draws.len() == self.config_spec().runs_per_config && (forall|i: int|
                    0 <= i < draws.len() ==> #[trigger] draws[i] < 10000) && r.batch_num == batch_num
                    && r.llm_name@ == llm_name@ && r.architecture@ == architecture@ && r.runs
                    == draws.len() && r.successes == successes_in(
                    #[trigger] simulated_runs(architecture_of(architecture@), batch_num as int, draws),
                ) && r.iteration_tenths == tenths_in(
                    simulated_runs(architecture_of(architecture@), batch_num as int, draws),
                ),
    {
        let n = self.config.runs_per_config;
        let mut draws: Vec<u64> = Vec::new();
        let mut i: usize = 0;
        while i < n
            invariant
                i <= n,
                draws@.len() == i,
                forall|j: int| 0 <= j < i ==> #[trigger] draws@[j] < 10000,
            decreases n - i,
        {
            let d = random_up_to(9999);
            draws.push(d);
            i = i + 1;
        }
        proof {
            let runs = simulated_runs(architecture_of(architecture@), batch_num as int, draws@);
            assert forall|j: int| 0 <= j < runs.len() implies #[trigger] runs[j].1 <= 38 by {
                assert(runs[j].1 == simulated_outcome(architecture_of(architecture@), batch_num as int, draws@[j]).1);
            }
            lemma_tenths_at_most(runs, 38);
        }
        self.simulate_batch_from_draws(batch_num, llm_name, architecture, &draws)
    }

    /// Which of the loaded tasks a run executes: run `run` takes task `run % num_tasks`.
    pub fn task_index_for_run(&self, run: usize, num_tasks: usize) -> (i: usize)
        requires
            num_tasks > 0,
        ensures
            i == run % num_tasks,
            i < num_tasks,
    {
        run % num_tasks
    }

    /// The outcome of a real run, in tenths of iterations: an executor's
    /// `(success, iterations)`, or a failure after one iteration when there was
    /// nothing to execute (no tasks, or an unknown architecture).
    pub fn real_outcome(&self, executed: Option<(bool, usize)>) -> (r: (bool, u64))
        requires
            executed matches Some(e) ==> e.1 * 10 <= u64::MAX,
        ensures
            executed is None ==> r == (false, 10u64),
            executed matches Some(e) ==> r.0 == e.0 && r.1 == e.1 * 10,
    {
        match executed {
            Some((success, iterations)) => (success, (iterations as u64) * 10),
            None => (false, 10),
        }
    }

    /// The order in which batches run for one model: every batch of TBCA, then
    /// every batch of ReAct+RAG.
    pub fn batch_plan(&self) -> (plan: Vec<(&'static str, usize)>)
        requires
            self.config_spec().num_batches * 2 <= usize::MAX,
        ensures
            plan@.len() == 2 * self.config_spec().num_batches,
            forall|i: int|
                0 <= i < plan@.len() ==> (#[trigger] plan@[i]).0@ == architecture_names()[i
                    / (self.config_spec().num_batches as int)] && plan@[i].1 == i % (
                self.config_spec().num_batches as int) + 1,
    {
        let nb = self.config.num_batches;
        let mut plan: Vec<(&'static str, usize)> = Vec::new();
        let mut a: usize = 0;
        while a < 2
            invariant
                nb == self.config_spec().num_batches,
                nb * 2 <= usize::MAX,
                a <= 2,
                plan@.len() == a * nb,
                forall|i: int|
                    0 <= i < plan@.len() ==> (#[trigger] plan@[i]).0@ == architecture_names()[i
                        / (nb as int)] && plan@[i].1 == i % (nb as int) + 1,
            decreases 2 - a,
        {
            let name: &'static str = if a == 0 { "TBCA" } else { "ReAct+RAG" };
            let mut b: usize = 1;
            while b <= nb
                invariant
                    nb == self.config_spec().num_batches,
                    nb * 2 <= usize::MAX,
                    a < 2,
                    name@ == architecture_names()[a as int],
                    1 <= b <= nb + 1,
                    plan@.len() == a * nb + b - 1,
                    forall|i: int|
                        0 <= i < plan@.len() ==> (#[trigger] plan@[i]).0@ == architecture_names()[i
                            / (nb as int)] && plan@[i].1 == i % (nb as int) + 1,
                decreases nb + 1 - b,
            {
                proof {
                    let i = a * nb + b - 1;
                    assert(i / (nb as int) == a && i % (nb as int) == b - 1) by (nonlinear_arith)
                        requires
                            i == a * nb + b - 1,
                            1 <= b <= nb,
                    ;
                }
                plan.push((name, b));
                b = b + 1;
            }
            proof {
                assert(a * nb + nb == (a + 1) * nb) by (nonlinear_arith);
            }
            a = a + 1;
        }
        plan
    }

    /// The groups of results that the tables report, batch by batch and, within
    /// a batch, TBCA before ReAct+RAG; a batch and architecture without results
    /// has no group.
    pub fn save_groups(&self, results: &Vec<BatchResult>) -> (groups: Vec<BatchGroup>)
        requires
            self.config_spec().num_batches * 2 <= usize::MAX,
        ensures
            groups@.len() == groups_upto(results@, 2 * self.config_spec().num_batches).len(),
            forall|i: int|
                0 <= i < groups@.len() ==> group_is(
                    #[trigger] groups@[i],
                    groups_upto(results@, 2 * self.config_spec().num_batches)[i],
                ),
    {
        let total = 2 * self.config.num_batches;
        let mut groups: Vec<BatchGroup> = Vec::new();
        let mut g: usize = 0;
        while g < total
            invariant
                total == 2 * self.config_spec().num_batches,
                g <= total,
                groups@.len() == groups_upto(results@, g as int).len(),
                forall|i: int|
                    0 <= i < groups@.len() ==> group_is(
                        #[trigger] groups@[i],
                        groups_upto(results@, g as int)[i],
                    ),
            decreases total - g,
        {
            let batch = g / 2 + 1;
            let arch: &'static str = if g % 2 == 0 { "TBCA" } else { "ReAct+RAG" };
            assert(arch@ == group_arch(g as int));
            let members = members_of(results, batch, arch);
            if members.len() > 0 {
                groups.push(
                    BatchGroup { batch_num: batch, architecture: String::from_str(arch), members },
                );
            }
            g = g + 1;
        }
        groups
    }
}

} // verus!

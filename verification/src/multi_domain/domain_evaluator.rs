//! Evaluates the tasks of a domain with both architectures, and lays out the
//! results as CSV rows.

use vstd::prelude::*;
use crate::llm_comparison::task_loader::Task as ComparisonTask;
use crate::multi_domain::task_definitions::Task;
use crate::text::{decimal, u64_to_decimal};

verus! {

/// How one task fared with each architecture.
#[derive(Debug, Clone)]
pub struct TaskResult {
    pub task_id: String,
    pub complexity: String,
    pub tbca_success: bool,
    pub tbca_iterations: usize,
    pub react_success: bool,
    pub react_iterations: usize,
}

/// How the tasks of one domain fared.
#[derive(Debug, Clone)]
pub struct DomainResults {
    pub domain: String,
    pub task_results: Vec<TaskResult>,
}

/// Evaluates domains and saves their results into a directory.
pub struct DomainEvaluator {
    results_dir: String,
}

/// `"1"` for success, `"0"` for failure, as `success as u8` prints.
pub open spec fn flag_text(b: bool) -> Seq<char> {
    if b {
        "1"@
    } else {
        "0"@
    }
}

/// The CSV columns: domain, complexity, then success and iterations of each architecture.
pub open spec fn csv_header_spec() -> Seq<Seq<char>> {
    seq![
        "Domain"@,
        "Complexity"@,
        "TBCA_SR"@,
        "TBCA_Iterations"@,
        "ReAct_SR"@,
        "ReAct_Iterations"@,
    ]
}

/// The CSV row of one task of a domain.
pub open spec fn csv_row_spec(domain: Seq<char>, t: TaskResult) -> Seq<Seq<char>> {
    seq![
        domain,
        t.complexity@,
        flag_text(t.tbca_success),
        decimal(t.tbca_iterations as nat),
        flag_text(t.react_success),
        decimal(t.react_iterations as nat),
    ]
}

/// The CSV rows of a domain's first `k` tasks.
pub open spec fn domain_rows_upto(d: DomainResults, k: int) -> Seq<Seq<Seq<char>>>
    decreases k,
{
    if k <= 0 {
        Seq::empty()
    } else {
        domain_rows_upto(d, k - 1).push(csv_row_spec(d.domain@, d.task_results@[k - 1]))
    }
}

/// The CSV rows of the first `k` domains, domain after domain.
pub open spec fn rows_upto(results: Seq<DomainResults>, k: int) -> Seq<Seq<Seq<char>>>
    decreases k,
{
    if k <= 0 {
        Seq::empty()
    } else {
        rows_upto(results, k - 1) + domain_rows_upto(
            results[k - 1],
            results[k - 1].task_results@.len() as int,
        )
    }
}

/// A row of strings holds the given texts.
pub open spec fn row_holds(row: Vec<String>, texts: Seq<Seq<char>>) -> bool {
    &&& row@.len() == texts.len()
    &&& forall|j: int| 0 <= j < texts.len() ==> #[trigger] row@[j]@ == texts[j]
}

fn flag(b: bool) -> (s: String)
    ensures
        s@ == flag_text(b),
{
    if b {
        String::from_str("1")
    } else {
        String::from_str("0")
    }
}

impl DomainEvaluator {
    /// An evaluator that saves into `results_dir`.
    pub fn new(results_dir: String) -> (e: Self)
        ensures
            e.results_dir_spec()@ == results_dir@,
    {
        DomainEvaluator { results_dir }
    }

    /// Where the evaluator saves its results.
    pub closed spec fn results_dir_spec(&self) -> String {
        self.results_dir
    }

    /// Where the evaluator saves its results.
    pub fn results_dir(&self) -> (d: &String)
        ensures
            *d == self.results_dir_spec(),
    {
        &self.results_dir
    }

    /// The task in the form the executors take: the same fields.
    pub fn comparison_task(&self, task: &Task) -> (c: ComparisonTask)
        ensures
            c.id == task.id,
            c.complexity == task.complexity,
            c.description == task.description,
            c.expected_outcome == task.expected_outcome,
            c.reasoning_steps == task.reasoning_steps,
    {
        ComparisonTask {
            id: task.id.clone(),
            complexity: task.complexity.clone(),
            description: task.description.clone(),
            expected_outcome: task.expected_outcome.clone(),
            reasoning_steps: task.reasoning_steps,
        }
    }

    /// The result of a task from each architecture's `(success, iterations)`.
    pub fn task_result(&self, task: &Task, tbca: (bool, usize), react: (bool, usize)) -> (r: TaskResult)
        ensures
            r.task_id == task.id,
            r.complexity == task.complexity,
            r.tbca_success == tbca.0,
            r.tbca_iterations == tbca.1,
            r.react_success == react.0,
            r.react_iterations == react.1,
    {
        TaskResult {
            task_id: task.id.clone(),
            complexity: task.complexity.clone(),
            tbca_success: tbca.0,
            tbca_iterations: tbca.1,
            react_success: react.0,
            react_iterations: react.1,
        }
    }

    /// The CSV file's name.
    pub fn csv_file_name(&self) -> (s: &'static str)
        ensures
            s@ == "table9_domain_performance.csv"@,
    {
        "table9_domain_performance.csv"
    }

    /// The CSV header.
    pub fn csv_header(&self) -> (h: Vec<String>)
        ensures
            row_holds(h, csv_header_spec()),
    {
        let mut h: Vec<String> = Vec::new();
        h.push(String::from_str("Domain"));
        h.push(String::from_str("Complexity"));
        h.push(String::from_str("TBCA_SR"));
        h.push(String::from_str("TBCA_Iterations"));
        h.push(String::from_str("ReAct_SR"));
        h.push(String::from_str("ReAct_Iterations"));
        h
    }

    /// The CSV rows of the results, domain after domain, task after task.
    pub fn csv_rows(&self, results: &Vec<DomainResults>) -> (rows: Vec<Vec<String>>)
        ensures
            rows@.len() == rows_upto(results@, results@.len() as int).len(),
            forall|i: int|
                0 <= i < rows@.len() ==> row_holds(
                    #[trigger] rows@[i],
                    rows_upto(results@, results@.len() as int)[i],
                ),
    {
        let mut rows: Vec<Vec<String>> = Vec::new();
        let n = results.len();
        let mut d: usize = 0;
        while d < n
            invariant
                n == results@.len(),
                d <= n,
                rows@.len() == rows_upto(results@, d as int).len(),
                forall|i: int|
                    0 <= i < rows@.len() ==> row_holds(
                        #[trigger] rows@[i],
                        rows_upto(results@, d as int)[i],
                    ),
            decreases n - d,
        {
            let dom = &results[d];
            let m = dom.task_results.len();
            let ghost before = rows_upto(results@, d as int);
            let mut k: usize = 0;
            while k < m
                invariant
                    n == results@.len(),
                    d < n,
                    *dom == results@[d as int],
                    m == dom.task_results@.len(),
                    k <= m,
                    before == rows_upto(results@, d as int),
                    rows@.len() == before.len() + domain_rows_upto(*dom, k as int).len(),
                    forall|i: int|
                        0 <= i < rows@.len() ==> row_holds(
                            #[trigger] rows@[i],
                            (before + domain_rows_upto(*dom, k as int))[i],
                        ),
                decreases m - k,
            {
                let t = &dom.task_results[k];
                let mut row: Vec<String> = Vec::new();
                row.push(dom.domain.clone());
                row.push(t.complexity.clone());
                row.push(flag(t.tbca_success));
                row.push(u64_to_decimal(t.tbca_iterations as u64));
                row.push(flag(t.react_success));
                row.push(u64_to_decimal(t.react_iterations as u64));
                assert(row_holds(row, csv_row_spec(dom.domain@, *t)));
                let ghost old_rows = rows@;
                rows.push(row);
                proof {
                    let target = before + domain_rows_upto(*dom, k + 1);
                    assert(target =~= (before + domain_rows_upto(*dom, k as int)).push(
                        csv_row_spec(dom.domain@, *t),
                    ));
                    assert forall|i: int| 0 <= i < rows@.len() implies row_holds(
                        #[trigger] rows@[i],
                        target[i],
                    ) by {
                        if i < old_rows.len() {
                            assert(rows@[i] == old_rows[i]);
                        }
                    }
                }
                k = k + 1;
            }
            proof {
                assert(rows_upto(results@, d + 1) == before + domain_rows_upto(
                    results@[d as int],
                    results@[d as int].task_results@.len() as int,
                ));
            }
            d = d + 1;
        }
        rows
    }
}

} // verus!

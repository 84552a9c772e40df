//! The scenario tasks and how they are split into batches.

use vstd::prelude::*;

verus! {

/// A scenario task: its id, complexity, description, the outcome expected, and
/// the number of reasoning steps it takes.
#[derive(Debug, Clone)]
pub struct Task {
    pub id: String,
    pub complexity: String,
    pub description: String,
    pub expected_outcome: String,
    pub reasoning_steps: usize,
}

impl Task {
    /// A copy of the task.
    pub fn duplicate(&self) -> (t: Task)
        ensures
            t == *self,
    {
        Task {
            id: self.id.clone(),
            complexity: self.complexity.clone(),
            description: self.description.clone(),
            expected_outcome: self.expected_outcome.clone(),
            reasoning_steps: self.reasoning_steps,
        }
    }
}

/// Why tasks could not be loaded.
#[derive(Debug, Clone)]
pub enum TaskLoadError {
    /// A scenario file could not be read or parsed; the message says why.
    Unreadable(String),
}

/// Loads the tasks of the scenario files in a directory.
pub struct TaskLoader {
    pub scenarios_dir: String,
}

/// The scenario files, in the order their tasks are taken.
pub open spec fn scenario_files_spec() -> Seq<Seq<char>> {
    seq!["legal_tasks.json"@, "economic_tasks.json"@, "spatial_tasks.json"@]
}

/// The tasks of batch `batch_num` (counted from 1) of `batch_size` tasks.
pub open spec fn batch_of(all: Seq<Task>, batch_num: int, batch_size: int) -> Seq<Task> {
    let start = (batch_num - 1) * batch_size;
    if start >= all.len() {
        Seq::empty()
    } else if start + batch_size >= all.len() {
        all.subrange(start, all.len() as int)
    } else {
        all.subrange(start, start + batch_size)
    }
}

/// The tasks of the files, one list after another.
pub open spec fn flatten_tasks(files: Seq<Vec<Task>>) -> Seq<Task>
    decreases files.len(),
{
    if files.len() == 0 {
        Seq::empty()
    } else {
        flatten_tasks(files.drop_last()) + files.last()@
    }
}

/// Batches of a positive size split the task list in order: task `i` is at
/// position `i % size` of batch `i / size + 1`.
pub proof fn lemma_batch_position(all: Seq<Task>, size: int, i: int)
    requires
        size > 0,
        0 <= i < all.len(),
    ensures
        0 <= i % size < batch_of(all, i / size + 1, size).len(),
        batch_of(all, i / size + 1, size)[i % size] == all[i],
{
    let b = i / size + 1;
    let start = (b - 1) * size;
    assert(start == i - i % size && 0 <= i % size < size) by (nonlinear_arith)
        requires
            size > 0,
            b == i / size + 1,
            start == (b - 1) * size,
            i >= 0,
    ;
}

/// Batches `1` to `k` of `size` tasks, one after another.
pub open spec fn batches_upto(all: Seq<Task>, k: nat, size: int) -> Seq<Task>
    decreases k,
{
    if k == 0 {
        Seq::empty()
    } else {
        batches_upto(all, (k - 1) as nat, size) + batch_of(all, k as int, size)
    }
}

proof fn lemma_batches_prefix(all: Seq<Task>, k: nat, size: int)
    requires
        size > 0,
    ensures
        batches_upto(all, k, size) =~= all.take(
            if k * size <= all.len() { k * size } else { all.len() as int },
        ),
    decreases k,
{
    if k > 0 {
        lemma_batches_prefix(all, (k - 1) as nat, size);
        let start = (k - 1) * size;
        assert(start + size == k * size && start >= 0) by (nonlinear_arith)
            requires
                start == (k - 1) * size,
                k >= 1,
                size > 0,
        ;
        let n = all.len() as int;
        let prev = batches_upto(all, (k - 1) as nat, size);
        if start >= n {
            assert(prev + batch_of(all, k as int, size) =~= all.take(n));
        } else if start + size >= n {
            assert(prev + batch_of(all, k as int, size) =~= all.take(n));
        } else {
            assert(prev + batch_of(all, k as int, size) =~= all.take(start + size));
        }
        assert(batches_upto(all, k, size) == prev + batch_of(all, k as int, size));
    } else {
        assert(k * size == 0) by (nonlinear_arith)
            requires
                k == 0,
        ;
        assert(batches_upto(all, k, size) =~= all.take(0));
    }
}

/// Batches of a positive size cover the task list: with `m` the number of
/// batches (the task count divided by the size, rounded up), batches `1` to
/// `m` joined in order are all the tasks, every batch before the `m`-th is
/// full, and batch `m + 1` is empty.
pub proof fn lemma_batches_cover(all: Seq<Task>, size: int, m: nat)
    requires
        size > 0,
        m == (all.len() + size - 1) / size,
    ensures
        batches_upto(all, m, size) == all,
        forall|b: int| 1 <= b < m ==> (#[trigger] batch_of(all, b, size)).len() == size,
        batch_of(all, m + 1int, size).len() == 0,
{
    let n = all.len() as int;
    assert(m * size >= n && (n > 0 ==> (m - 1) * size < n) && (n == 0 ==> m == 0)) by (nonlinear_arith)
        requires
            size > 0,
            n >= 0,
            m == (n + size - 1) / size,
    ;
    lemma_batches_prefix(all, m, size);
    assert(all.take(n) =~= all);
    assert forall|b: int| 1 <= b < m implies (#[trigger] batch_of(all, b, size)).len() == size by {
        assert((b - 1) * size + size <= (m - 1) * size && (b - 1) * size >= 0) by (nonlinear_arith)
            requires
                1 <= b < m,
                size > 0,
        ;
        assert((b - 1) * size + size < n);
    }
}

impl TaskLoader {
    /// A loader for the scenario files in `scenarios_dir`.
    pub fn new(scenarios_dir: String) -> (l: Self)
        ensures
            l.scenarios_dir@ == scenarios_dir@,
    {
        TaskLoader { scenarios_dir }
    }

    /// The names of the scenario files: legal, economic and spatial tasks.
    pub fn scenario_files(&self) -> (files: Vec<&'static str>)
        ensures
            files@.len() == 3,
            forall|i: int| 0 <= i < 3 ==> #[trigger] files@[i]@ == scenario_files_spec()[i],
    {
        let mut files: Vec<&'static str> = Vec::new();
        files.push("legal_tasks.json");
        files.push("economic_tasks.json");
        files.push("spatial_tasks.json");
        files
    }

    /// All tasks of the files that exist, in file order.
    pub fn collect_tasks(&self, files: Vec<Vec<Task>>) -> (all: Vec<Task>)
        ensures
            all@ == flatten_tasks(files@),
    {
        let mut all: Vec<Task> = Vec::new();
        let n = files.len();
        let mut i: usize = 0;
        while i < n
            invariant
                n == files@.len(),
                i <= n,
                all@ == flatten_tasks(files@.take(i as int)),
            decreases n - i,
        {
            let part = &files[i];
            let m = part.len();
            let mut j: usize = 0;
            let ghost before = all@;
            while j < m
                invariant
                    m == part@.len(),
                    j <= m,
                    all@ == before + part@.take(j as int),
                decreases m - j,
            {
                all.push(part[j].duplicate());
                assert(part@.take(j + 1) =~= part@.take(j as int).push(part@[j as int]));
                j = j + 1;
            }
            assert(part@.take(m as int) =~= part@);
            assert(files@.take(i + 1).drop_last() =~= files@.take(i as int));
            i = i + 1;
        }
        assert(files@.take(n as int) =~= files@);
        all
    }

    /// Batch `batch_num` (counted from 1) of `batch_size` tasks: the tasks from
    /// position `(batch_num - 1) * batch_size` on, at most `batch_size` of them.
    /// An error in loading the tasks is passed on.
    pub fn get_batch(
        &self,
        all_tasks: Result<Vec<Task>, TaskLoadError>,
        batch_num: usize,
        batch_size: usize,
    ) -> (r: Result<Vec<Task>, TaskLoadError>)
        requires
            all_tasks is Ok ==> (batch_num >= 1 && (batch_num - 1) * batch_size + batch_size
                <= usize::MAX),
        ensures
            match all_tasks {
                Ok(all) => r matches Ok(b) && b@ == batch_of(all@, batch_num as int, batch_size as int),
                Err(e) => r matches Err(e2) && e2 == e,
            },
    {
        let all = match all_tasks {
            Ok(all) => all,
            Err(e) => return Err(e),
        };
        let start = (batch_num - 1) * batch_size;
        let end = start + batch_size;
        let n = all.len();
        let mut batch: Vec<Task> = Vec::new();
        if start < n {
            let stop = if end < n { end } else { n };
            let mut i: usize = start;
            while i < stop
                invariant
                    n == all@.len(),
                    start <= i <= stop <= n,
                    batch@ == all@.subrange(start as int, i as int),
                decreases stop - i,
            {
                batch.push(all[i].duplicate());
                assert(batch@ =~= all@.subrange(start as int, i + 1));
                i = i + 1;
            }
        }
        assert(batch@ =~= batch_of(all@, batch_num as int, batch_size as int));
        Ok(batch)
    }
}

} // verus!

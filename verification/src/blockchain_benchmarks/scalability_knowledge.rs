//! Scalability with the size of the knowledge base: a base of numbered units,
//! queried again and again.

use vstd::prelude::*;
use crate::knowledge::{numbered, pku, Pku};
use crate::samples::{sum_of, sum_samples};
use crate::text::{decimal, lemma_numbered_injective};

verus! {

/// The knowledge unit at position `i` of a generated knowledge base.
pub open spec fn kb_unit_matches(p: Pku, i: int) -> bool {
    &&& p.premise@ == "premise_"@ + decimal(i as nat)
    &&& p.conclusion@ == "conclusion_"@ + decimal(i as nat)
    &&& p.solution@ == "solution_"@ + decimal(i as nat)
    &&& p.confidence == 8000 + i % 2000
}

/// A knowledge base of `num_pkus` numbered units: unit `i` leads from
/// `premise_{i}` to `conclusion_{i}` by `solution_{i}`, with confidence
/// `8000 + i % 2000`. No unit occurs twice: the premises are pairwise distinct.
pub fn knowledge_base_of_size(num_pkus: u64) -> (kb: Vec<Pku>)
    ensures
        kb@.len() == num_pkus,
        forall|i: int| 0 <= i < num_pkus ==> #[trigger] kb_unit_matches(kb@[i], i),
        forall|i: int, j: int|
            0 <= i < j < num_pkus ==> #[trigger] kb@[i].premise@ != #[trigger] kb@[j].premise@,
{
    let mut kb: Vec<Pku> = Vec::new();
    let mut i: u64 = 0;
    while i < num_pkus
        invariant
            i <= num_pkus,
            kb@.len() == i,
            forall|j: int| 0 <= j < i ==> #[trigger] kb_unit_matches(kb@[j], j),
        decreases num_pkus - i,
    {
        let unit = pku(
            numbered("premise_", i),
            numbered("conclusion_", i),
            numbered("solution_", i).as_str(),
            8000 + i % 2000,
        );
        kb.push(unit);
        i = i + 1;
    }
    assert forall|i: int, j: int| 0 <= i < j < num_pkus implies #[trigger] kb@[i].premise@
        != #[trigger] kb@[j].premise@ by {
        assert(kb_unit_matches(kb@[i], i));
        assert(kb_unit_matches(kb@[j], j));
        lemma_numbered_injective("premise_"@, i as nat, j as nat);
    }
    kb
}

/// The number of queries made against each knowledge base.
pub fn queries_per_size() -> (n: u64)
    ensures
        n == 100,
{
    100
}

/// The hypothesis of query `query_id`: it asks for unit `query_id % max(num_pkus, 1)`.
pub fn kb_query(query_id: u64, num_pkus: u64) -> (p: Pku)
    ensures
        p.premise@ == "premise_"@ + decimal((query_id % (if num_pkus < 1 { 1 } else { num_pkus })) as nat),
        p.conclusion@ == "conclusion_"@ + decimal(
            (query_id % (if num_pkus < 1 { 1 } else { num_pkus })) as nat,
        ),
        p.solution@ == "test"@,
        p.confidence == 5000,
{
    let k = query_id % (if num_pkus < 1 { 1 } else { num_pkus });
    pku(numbered("premise_", k), numbered("conclusion_", k), "test", 5000)
}

/// The mean query latency, rounded down.
pub fn mean_latency(latencies: &[u64]) -> (m: u64)
    requires
        latencies@.len() > 0,
        sum_of(latencies@) <= u64::MAX,
    ensures
        m == sum_of(latencies@) / (latencies@.len() as int),
{
    sum_samples(latencies) / (latencies.len() as u64)
}

/// The estimated size of a knowledge base in bytes: about 200 bytes per unit.
pub fn kb_size_bytes(num_pkus: u64) -> (b: u64)
    requires
        num_pkus * 200 <= u64::MAX,
    ensures
        b == num_pkus * 200,
{
    num_pkus * 200
}

} // verus!

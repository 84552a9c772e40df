//! Multi-domain evaluation: legal, economic and spatial tasks, each run with
//! TBCA and with the ReAct+RAG baseline.

pub mod domain_evaluator;
pub mod task_definitions;

use vstd::prelude::*;

verus! {

/// The domains evaluated, in order.
pub open spec fn domains_spec() -> Seq<Seq<char>> {
    seq!["legal"@, "economic"@, "spatial"@]
}

/// The domains evaluated: legal, economic and spatial.
pub fn domains() -> (d: Vec<&'static str>)
    ensures
        d@.len() == 3,
        forall|i: int| 0 <= i < 3 ==> #[trigger] d@[i]@ == domains_spec()[i],
{
    let mut d: Vec<&'static str> = Vec::new();
    d.push("legal");
    d.push("economic");
    d.push("spatial");
    d
}

/// The scenario file of a domain: `{domain}_tasks.json`.
pub fn scenario_file_name(domain: &str) -> (s: String)
    ensures
        s@ == domain@ + "_tasks.json"@,
{
    let mut s = String::from_str(domain);
    s.append("_tasks.json");
    s
}

} // verus!

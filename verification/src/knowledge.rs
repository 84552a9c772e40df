//! Probabilistic knowledge units: the hypotheses and rules that the
//! experiments hand to the logic engine.

use vstd::prelude::*;
use crate::text::{decimal, u64_to_decimal};

verus! {

/// A probabilistic knowledge unit: a premise leads to a conclusion by a
/// solution, with a confidence in basis points (10000 = certain).
#[derive(Debug, Clone)]
pub struct Pku {
    pub premise: String,
    pub conclusion: String,
    pub solution: String,
    pub confidence: u64,
}

/// `prefix` followed by the decimal rendering of `n`, as `format!("{prefix}{n}")`.
pub fn numbered(prefix: &str, n: u64) -> (s: String)
    ensures
        s@ == prefix@ + decimal(n as nat),
{
    let mut s = String::from_str(prefix);
    let d = u64_to_decimal(n);
    s.append(d.as_str());
    s
}

/// Builds a knowledge unit from its parts.
pub fn pku(premise: String, conclusion: String, solution: &str, confidence: u64) -> (p: Pku)
    ensures
        p.premise@ == premise@,
        p.conclusion@ == conclusion@,
        p.solution@ == solution@,
        p.confidence == confidence,
{
    Pku { premise, conclusion, solution: String::from_str(solution), confidence }
}

/// Whether the logic engine's confidence in a hypothesis reaches the threshold.
pub fn meets_threshold(confidence: u64, threshold: u64) -> (ok: bool)
    ensures
        ok == (confidence >= threshold),
{
    confidence >= threshold
}

} // verus!

//! Read and write latency of a blockchain layer, and the layer's row in the
//! performance table.

use vstd::prelude::*;
use crate::samples::{sort_samples, sorted_samples, sum_of, sum_samples};
use crate::text::{decimal, str_eq, u64_to_decimal};

verus! {

/// Mean and 95th-percentile latency of reads and writes on one layer, in milliseconds.
#[derive(Debug, Clone)]
pub struct LayerPerformance {
    pub layer: String,
    pub mean_read_ms: u64,
    pub p95_read_ms: u64,
    pub mean_write_ms: u64,
    pub p95_write_ms: u64,
}

/// The position of the 95th percentile among `n` sorted samples: `n * 0.95`
/// rounded down.
pub open spec fn p95_rank(n: int) -> int {
    n * 95 / 100
}

/// The position of the 95th percentile among `n` sorted samples.
pub fn p95_index(n: usize) -> (i: usize)
    ensures
        i == p95_rank(n as int),
        n > 0 ==> i < n,
{
    let q = n / 100;
    let r = n % 100;
    proof {
        assert(n * 95 / 100 == q * 95 + r * 95 / 100) by (nonlinear_arith)
            requires
                n == q * 100 + r,
                0 <= r < 100,
        ;
        assert(n > 0 ==> n * 95 / 100 < n) by (nonlinear_arith);
    }
    q * 95 + r * 95 / 100
}

/// The performance of a layer from equally many read and write samples: means
/// rounded down, and the sample at the 95th-percentile position once sorted.
pub fn layer_performance_from_samples(layer: &str, read: Vec<u64>, write: Vec<u64>) -> (p:
    LayerPerformance)
    requires
        read@.len() == write@.len(),
        read@.len() > 0,
        sum_of(read@) <= u64::MAX,
        sum_of(write@) <= u64::MAX,
    ensures
        p.layer@ == layer@,
        p.mean_read_ms == sum_of(read@) / (read@.len() as int),
        p.mean_write_ms == sum_of(write@) / (write@.len() as int),
        p.p95_read_ms == sorted_samples(read@)[p95_rank(read@.len() as int)],
        p.p95_write_ms == sorted_samples(write@)[p95_rank(write@.len() as int)],
{
    let n = read.len();
    let read_total = sum_samples(read.as_slice());
    let write_total = sum_samples(write.as_slice());
    let mut read_sorted = read;
    let mut write_sorted = write;
    sort_samples(&mut read_sorted);
    sort_samples(&mut write_sorted);
    let k = p95_index(n);
    assert(read_sorted@.len() == n) by {
        crate::samples::lemma_sorted_len(read@);
    }
    assert(write_sorted@.len() == n) by {
        crate::samples::lemma_sorted_len(write@);
    }
    LayerPerformance {
        layer: String::from_str(layer),
        mean_read_ms: read_total / (n as u64),
        p95_read_ms: read_sorted[k],
        mean_write_ms: write_total / (n as u64),
        p95_write_ms: write_sorted[k],
    }
}


/// A layer's row in the performance table.
#[derive(Debug, Clone)]
pub struct LayerRow {
    pub layer_num: String,
    pub layer_name: String,
    pub consensus: String,
    pub tps_estimate: u64,
    pub finality: String,
}

/// Writes per second that one write's mean latency allows: `1000 / max(mean, 1)`.
pub open spec fn write_tps(mean_write_ms: u64) -> int {
    1000int / (if mean_write_ms < 1 { 1int } else { mean_write_ms as int })
}

/// The row of the table for a layer: stream is L1 (proof of authority, twice
/// the write rate, instant finality), logic is L2 (PBFT, the write rate,
/// finality of one write), anchor is L3 (proof of work, a tenth of the write
/// rate, finality in whole minutes, at least one); any other layer is unknown.
pub open spec fn row_matches(row: LayerRow, perf: LayerPerformance) -> bool {
    let tps = write_tps(perf.mean_write_ms);
    if perf.layer@ == "stream"@ {
        &&& row.layer_num@ == "1"@
        &&& row.layer_name@ == "PoA"@
        &&& row.consensus@ == "Authority"@
        &&& row.tps_estimate == tps * 2
        &&& row.finality@ == "Instant"@
    } else if perf.layer@ == "logic"@ {
        &&& row.layer_num@ == "2"@
        &&& row.layer_name@ == "PBFT"@
        &&& row.consensus@ == "Partial BFT"@
        &&& row.tps_estimate == tps
        &&& row.finality@ == decimal(perf.mean_write_ms as nat) + "ms"@
    } else if perf.layer@ == "anchor"@ {
        let minutes = perf.mean_write_ms / 60000;
        &&& row.layer_num@ == "3"@
        &&& row.layer_name@ == "PoW"@
        &&& row.consensus@ == "Proof-of-Work"@
        &&& row.tps_estimate == tps / 10
        &&& row.finality@ == decimal((if minutes < 1 { 1 } else { minutes }) as nat) + "min"@
    } else {
        &&& row.layer_num@ == "?"@
        &&& row.layer_name@ == "?"@
        &&& row.consensus@ == "Unknown"@
        &&& row.tps_estimate == 0
        &&& row.finality@ == "?"@
    }
}

fn suffixed(n: u64, suffix: &str) -> (s: String)
    ensures
        s@ == decimal(n as nat) + suffix@,
{
    let mut s = u64_to_decimal(n);
    s.append(suffix);
    s
}

/// The row of the performance table for a layer.
pub fn layer_row(perf: &LayerPerformance) -> (row: LayerRow)
    ensures
        row_matches(row, *perf),
{
    let divisor = if perf.mean_write_ms < 1 { 1 } else { perf.mean_write_ms };
    let tps = 1000 / divisor;
    assert(tps <= 1000);
    if str_eq(perf.layer.as_str(), "stream") {
        LayerRow {
            layer_num: String::from_str("1"),
            layer_name: String::from_str("PoA"),
            consensus: String::from_str("Authority"),
            tps_estimate: tps * 2,
            finality: String::from_str("Instant"),
        }
    } else if str_eq(perf.layer.as_str(), "logic") {
        LayerRow {
            layer_num: String::from_str("2"),
            layer_name: String::from_str("PBFT"),
            consensus: String::from_str("Partial BFT"),
            tps_estimate: tps,
            finality: suffixed(perf.mean_write_ms, "ms"),
        }
    } else if str_eq(perf.layer.as_str(), "anchor") {
        let minutes = perf.mean_write_ms / 60000;
        LayerRow {
            layer_num: String::from_str("3"),
            layer_name: String::from_str("PoW"),
            consensus: String::from_str("Proof-of-Work"),
            tps_estimate: tps / 10,
            finality: suffixed(if minutes < 1 { 1 } else { minutes }, "min"),
        }
    } else {
        LayerRow {
            layer_num: String::from_str("?"),
            layer_name: String::from_str("?"),
            consensus: String::from_str("Unknown"),
            tps_estimate: 0,
            finality: String::from_str("?"),
        }
    }
}

/// The LaTeX line of a layer's row:
/// `L{num} ({name}) & {consensus} & {tps} TPS & {mean read} ms & {p95 read} ms & ? & {finality} \\`.
pub open spec fn latex_line_of(row: LayerRow, perf: LayerPerformance) -> Seq<char> {
    "L"@ + row.layer_num@ + " ("@ + row.layer_name@ + ") & "@ + row.consensus@ + " & "@
        + decimal(row.tps_estimate as nat) + " TPS & "@ + decimal(perf.mean_read_ms as nat)
        + " ms & "@ + decimal(perf.p95_read_ms as nat) + " ms & ? & "@ + row.finality@
        + " \\\\"@
}

/// The LaTeX line of a layer in the performance table.
pub fn layer_latex_line(perf: &LayerPerformance) -> (s: String)
    ensures
        exists|row: LayerRow| row_matches(row, *perf) && s@ == latex_line_of(row, *perf),
{
    let row = layer_row(perf);
    let mut s = String::from_str("L");
    s.append(row.layer_num.as_str());
    s.append(" (");
    s.append(row.layer_name.as_str());
    s.append(") & ");
    s.append(row.consensus.as_str());
    s.append(" & ");
    s.append(u64_to_decimal(row.tps_estimate).as_str());
    s.append(" TPS & ");
    s.append(u64_to_decimal(perf.mean_read_ms).as_str());
    s.append(" ms & ");
    s.append(u64_to_decimal(perf.p95_read_ms).as_str());
    s.append(" ms & ? & ");
    s.append(row.finality.as_str());
    s.append(" \\\\");
    assert(s@ == latex_line_of(row, *perf));
    s
}

} // verus!

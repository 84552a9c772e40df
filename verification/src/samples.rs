//! Latency samples: sums, extremes, integer means and ascending order.

use vstd::prelude::*;
use vstd::relations::{sorted_by, total_ordering};

verus! {

/// The sum of a sequence of samples.
pub open spec fn sum_of(s: Seq<u64>) -> int
    decreases s.len(),
{
    if s.len() == 0 {
        0
    } else {
        sum_of(s.drop_last()) + s.last()
    }
}

/// The least sample (0 for no samples).
pub open spec fn min_of(s: Seq<u64>) -> u64
    decreases s.len(),
{
    if s.len() == 0 {
        0
    } else if s.len() == 1 {
        s[0]
    } else {
        let m = min_of(s.drop_last());
        if s.last() < m {
            s.last()
        } else {
            m
        }
    }
}

/// The greatest sample (0 for no samples).
pub open spec fn max_of(s: Seq<u64>) -> u64
    decreases s.len(),
{
    if s.len() == 0 {
        0
    } else if s.len() == 1 {
        s[0]
    } else {
        let m = max_of(s.drop_last());
        if s.last() > m {
            s.last()
        } else {
            m
        }
    }
}

/// The order in which samples are sorted: ascending.
pub open spec fn ascending() -> spec_fn(u64, u64) -> bool {
    |a: u64, b: u64| a <= b
}

/// The samples in ascending order, as `sort` leaves them.
pub open spec fn sorted_samples(s: Seq<u64>) -> Seq<u64> {
    s.sort_by(ascending())
}

pub proof fn lemma_sum_nonneg(s: Seq<u64>)
    ensures
        sum_of(s) >= 0,
    decreases s.len(),
{
    if s.len() > 0 {
        lemma_sum_nonneg(s.drop_last());
    }
}

/// The sum of a prefix is at most the sum of the whole.
pub proof fn lemma_sum_prefix(s: Seq<u64>, i: int)
    requires
        0 <= i <= s.len(),
    ensures
        sum_of(s.take(i)) <= sum_of(s),
    decreases s.len(),
{
    if i < s.len() {
        assert(s.drop_last().take(i) =~= s.take(i));
        lemma_sum_prefix(s.drop_last(), i);
    } else {
        assert(s.take(i) =~= s);
    }
}

proof fn lemma_sum_take_next(s: Seq<u64>, i: int)
    requires
        0 <= i < s.len(),
    ensures
        sum_of(s.take(i + 1)) == sum_of(s.take(i)) + s[i],
{
    assert(s.take(i + 1).drop_last() =~= s.take(i));
}

/// The sum of the samples, as `iter().sum::<u64>()` computes it.
pub fn sum_samples(v: &[u64]) -> (r: u64)
    requires
        sum_of(v@) <= u64::MAX,
    ensures
        r == sum_of(v@),
{
    let n = v.len();
    let mut acc: u64 = 0;
    let mut i: usize = 0;
    while i < n
        invariant
            n == v@.len(),
            i <= n,
            sum_of(v@) <= u64::MAX,
            acc == sum_of(v@.take(i as int)),
        decreases n - i,
    {
        proof {
            lemma_sum_take_next(v@, i as int);
            lemma_sum_prefix(v@, i + 1);
            lemma_sum_nonneg(v@.take(i as int));
        }
        acc = acc + v[i];
        i = i + 1;
    }
    assert(v@.take(n as int) =~= v@);
    acc
}

proof fn lemma_min_take_next(s: Seq<u64>, i: int)
    requires
        1 <= i < s.len(),
    ensures
        min_of(s.take(i + 1)) == if s[i] < min_of(s.take(i)) { s[i] } else { min_of(s.take(i)) },
        max_of(s.take(i + 1)) == if s[i] > max_of(s.take(i)) { s[i] } else { max_of(s.take(i)) },
{
    assert(s.take(i + 1).drop_last() =~= s.take(i));
}

/// The least sample (0 when there is none), as `iter().min().unwrap_or(&0)`.
pub fn min_sample(v: &[u64]) -> (r: u64)
    ensures
        r == min_of(v@),
{
    let n = v.len();
    if n == 0 {
        return 0;
    }
    let mut m = v[0];
    let mut i: usize = 1;
    while i < n
        invariant
            n == v@.len(),
            1 <= i <= n,
            m == min_of(v@.take(i as int)),
        decreases n - i,
    {
        proof {
            lemma_min_take_next(v@, i as int);
        }
        if v[i] < m {
            m = v[i];
        }
        i = i + 1;
    }
    assert(v@.take(n as int) =~= v@);
    m
}

/// The greatest sample (0 when there is none), as `iter().max().unwrap_or(&0)`.
pub fn max_sample(v: &[u64]) -> (r: u64)
    ensures
        r == max_of(v@),
{
    let n = v.len();
    if n == 0 {
        return 0;
    }
    let mut m = v[0];
    let mut i: usize = 1;
    while i < n
        invariant
            n == v@.len(),
            1 <= i <= n,
            m == max_of(v@.take(i as int)),
        decreases n - i,
    {
        proof {
            lemma_min_take_next(v@, i as int);
        }
        if v[i] > m {
            m = v[i];
        }
        i = i + 1;
    }
    assert(v@.take(n as int) =~= v@);
    m
}

/// Every sample lies between the least and the greatest one.
pub proof fn lemma_min_max_bound(s: Seq<u64>, k: int)
    requires
        0 <= k < s.len(),
    ensures
        min_of(s) <= s[k] <= max_of(s),
    decreases s.len(),
{
    if s.len() > 1 && k < s.len() - 1 {
        lemma_min_max_bound(s.drop_last(), k);
    }
}

/// The sum of the samples lies between their number times the least and times the greatest.
pub proof fn lemma_sum_between(s: Seq<u64>)
    ensures
        s.len() * min_of(s) <= sum_of(s) <= s.len() * max_of(s),
    decreases s.len(),
{
    if s.len() == 1 {
        assert(s.drop_last().len() == 0);
        assert(sum_of(s.drop_last()) == 0);
        assert(sum_of(s) == s[0]);
    } else if s.len() > 1 {
        let t = s.drop_last();
        lemma_sum_between(t);
        assert(sum_of(s) == sum_of(t) + s.last());
        assert(min_of(s) <= min_of(t) && min_of(s) <= s.last());
        assert(max_of(s) >= max_of(t) && max_of(s) >= s.last());
        let a = min_of(t);
        let b = max_of(t);
        let n = t.len();
        assert(n * min_of(s) <= n * a) by (nonlinear_arith)
            requires
                min_of(s) <= a,
        ;
        assert(n * b <= n * max_of(s)) by (nonlinear_arith)
            requires
                b <= max_of(s),
        ;
        assert(s.len() * min_of(s) == n * min_of(s) + min_of(s)) by (nonlinear_arith)
            requires
                s.len() == n + 1,
        ;
        assert(s.len() * max_of(s) == n * max_of(s) + max_of(s)) by (nonlinear_arith)
            requires
                s.len() == n + 1,
        ;
    }
}

proof fn lemma_ascending_total()
    ensures
        total_ordering(ascending()),
{
}

proof fn lemma_swap_multiset(s: Seq<u64>, i: int, j: int)
    requires
        0 <= i < s.len(),
        0 <= j < s.len(),
    ensures
        s.update(i, s[j]).update(j, s[i]).to_multiset() =~= s.to_multiset(),
{
    broadcast use vstd::seq_lib::to_multiset_update;
    broadcast use vstd::seq_lib::to_multiset_contains;
    broadcast use vstd::multiset::group_multiset_axioms;
    let m = s.to_multiset();
    let t = s.update(i, s[j]);
    let u = t.update(j, s[i]);
    if i == j {
        assert(u =~= s);
    } else {
        assert(t.to_multiset() == m.insert(s[j]).remove(s[i]));
        assert(t[j] == s[j]);
        assert(u.to_multiset() == t.to_multiset().insert(s[i]).remove(s[j]));
        assert(s.contains(s[i]));
        assert(m.count(s[i]) > 0);
        assert forall|x: u64| #[trigger] u.to_multiset().count(x) == m.count(x) by {
        }
    }
}

/// Sorting keeps the number of samples.
pub proof fn lemma_sorted_len(s: Seq<u64>)
    ensures
        sorted_samples(s).len() == s.len(),
{
    lemma_ascending_total();
    s.lemma_sort_by_ensures(ascending());
    vstd::seq_lib::to_multiset_len(s);
    vstd::seq_lib::to_multiset_len(sorted_samples(s));
}

/// Sorted samples are in ascending order, and each of them is one of the samples.
pub proof fn lemma_sorted_samples(s: Seq<u64>, k: int)
    requires
        0 <= k < s.len(),
    ensures
        s.contains(sorted_samples(s)[k]),
        forall|i: int, j: int|
            0 <= i <= j < s.len() ==> #[trigger] sorted_samples(s)[i] <= #[trigger] sorted_samples(s)[j],
{
    lemma_ascending_total();
    s.lemma_sort_by_ensures(ascending());
    lemma_sorted_len(s);
    assert(sorted_samples(s).contains(sorted_samples(s)[k]));
    assert forall|i: int, j: int| 0 <= i <= j < s.len() implies #[trigger] sorted_samples(s)[i]
        <= #[trigger] sorted_samples(s)[j] by {
        if i < j {
            assert((ascending())(sorted_samples(s)[i], sorted_samples(s)[j]));
        }
    }
}

/// Samples that all lie between `lo` and `hi` sum to between `n * lo` and `n * hi`.
pub proof fn lemma_sum_within(s: Seq<u64>, lo: int, hi: int)
    requires
        forall|i: int| 0 <= i < s.len() ==> lo <= #[trigger] s[i] <= hi,
    ensures
        s.len() * lo <= sum_of(s) <= s.len() * hi,
    decreases s.len(),
{
    if s.len() > 0 {
        let t = s.drop_last();
        assert forall|i: int| 0 <= i < t.len() implies lo <= #[trigger] t[i] <= hi by {
            assert(t[i] == s[i]);
        }
        lemma_sum_within(t, lo, hi);
        assert(lo <= s[s.len() - 1] <= hi);
        assert(s.len() * lo == t.len() * lo + lo && s.len() * hi == t.len() * hi + hi) by (nonlinear_arith)
            requires
                s.len() == t.len() + 1,
        ;
    }
}

/// The last of the sorted samples is at least every sample.
pub proof fn lemma_sorted_last_bounds(s: Seq<u64>, i: int)
    requires
        0 <= i < s.len(),
    ensures
        s[i] <= sorted_samples(s)[s.len() - 1],
{
    broadcast use vstd::seq_lib::to_multiset_contains;
    lemma_ascending_total();
    s.lemma_sort_by_ensures(ascending());
    lemma_sorted_len(s);
    lemma_sorted_samples(s, i);
    let t = sorted_samples(s);
    assert(s.contains(s[i]));
    assert(s.to_multiset().count(s[i]) > 0);
    assert(t.to_multiset().count(s[i]) > 0);
    assert(t.contains(s[i]));
    let j = choose|j: int| 0 <= j < t.len() && t[j] == s[i];
    assert(t[j] <= t[s.len() - 1]);
}

/// Sorts the samples in ascending order (insertion sort).
pub fn sort_samples(v: &mut Vec<u64>)
    ensures
        final(v)@ == sorted_samples(old(v)@),
{
    let ghost unsorted = v@;
    let n = v.len();
    let mut i: usize = 1;
    if n == 0 {
        proof {
            lemma_ascending_total();
            unsorted.lemma_sort_by_ensures(ascending());
            vstd::seq_lib::lemma_sorted_unique(v@, sorted_samples(unsorted), ascending());
        }
        return;
    }
    while i < n
        invariant
            n == v@.len(),
            1 <= i <= n,
            v@.to_multiset() == unsorted.to_multiset(),
            forall|a: int, b: int| 0 <= a < b < i ==> #[trigger] v@[a] <= #[trigger] v@[b],
        decreases n - i,
    {
        let mut j: usize = i;
        while j > 0 && v[j - 1] > v[j]
            invariant
                n == v@.len(),
                1 <= i < n,
                j <= i,
                v@.to_multiset() == unsorted.to_multiset(),
                forall|a: int, b: int| 0 <= a < b < j ==> #[trigger] v@[a] <= #[trigger] v@[b],
                forall|a: int, b: int| j <= a < b <= i ==> #[trigger] v@[a] <= #[trigger] v@[b],
                forall|a: int, b: int|
                    0 <= a < j && j < b <= i ==> #[trigger] v@[a] <= #[trigger] v@[b],
            decreases j,
        {
            let x = v[j - 1];
            let y = v[j];
            proof {
                lemma_swap_multiset(v@, j - 1, j as int);
            }
            v.set(j - 1, y);
            v.set(j, x);
            j = j - 1;
        }
        i = i + 1;
    }
    proof {
        lemma_ascending_total();
        unsorted.lemma_sort_by_ensures(ascending());
        assert(sorted_by(v@, ascending()));
        vstd::seq_lib::lemma_sorted_unique(v@, sorted_samples(unsorted), ascending());
    }
}


/// The number of elements of `s` that satisfy `p`.
pub open spec fn count_where<A>(s: Seq<A>, p: spec_fn(A) -> bool) -> nat
    decreases s.len(),
{
    if s.len() == 0 {
        0
    } else {
        count_where(s.drop_last(), p) + if p(s.last()) { 1nat } else { 0nat }
    }
}

/// Counting along a prefix: one more element adds one exactly when it satisfies `p`.
pub proof fn lemma_count_take_next<A>(s: Seq<A>, p: spec_fn(A) -> bool, i: int)
    requires
        0 <= i < s.len(),
    ensures
        count_where(s.take(i + 1), p) == count_where(s.take(i), p) + if p(s[i]) { 1nat } else { 0nat },
{
    assert(s.take(i + 1).drop_last() =~= s.take(i));
}

} // verus!

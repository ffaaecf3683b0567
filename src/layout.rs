//! Running sums of row heights, and the facts about them that layout needs.
use vstd::prelude::*;

verus! {

/// The sum of the first `n` entries of `s`.
pub open spec fn prefix_sum(s: Seq<int>, n: int) -> int
    decreases n,
{
    if n <= 0 {
        0
    } else {
        prefix_sum(s, n - 1) + s[n - 1]
    }
}

/// Running sums of non-negative entries never decrease.
pub proof fn lemma_prefix_sum_monotone(s: Seq<int>, i: int, j: int)
    requires
        0 <= i <= j <= s.len(),
        forall|k: int| 0 <= k < s.len() ==> s[k] >= 0,
    ensures
        prefix_sum(s, i) <= prefix_sum(s, j),
    decreases j - i,
{
    if i < j {
        lemma_prefix_sum_monotone(s, i, j - 1);
    }
}

/// A running sum of entries in `[0, m]` lies in `[0, n * m]`.
pub proof fn lemma_prefix_sum_bound(s: Seq<int>, n: int, m: int)
    requires
        0 <= n <= s.len(),
        forall|k: int| 0 <= k < s.len() ==> 0 <= #[trigger] s[k] <= m,
    ensures
        0 <= prefix_sum(s, n) <= n * m,
    decreases n,
{
    if n > 0 {
        lemma_prefix_sum_bound(s, n - 1, m);
        assert(0 <= s[n - 1] <= m);
        assert(n * m == (n - 1) * m + m) by (nonlinear_arith);
    } else {
        assert(n * m == 0) by (nonlinear_arith)
            requires
                n == 0,
        ;
    }
}

/// A running sum of entries all equal to `h` is `n * h`.
pub proof fn lemma_prefix_sum_uniform(s: Seq<int>, n: int, h: int)
    requires
        0 <= n <= s.len(),
        forall|k: int| 0 <= k < s.len() ==> #[trigger] s[k] == h,
    ensures
        prefix_sum(s, n) == n * h,
    decreases n,
{
    if n > 0 {
        lemma_prefix_sum_uniform(s, n - 1, h);
        assert(s[n - 1] == h);
        assert(n * h == (n - 1) * h + h) by (nonlinear_arith);
    } else {
        assert(n * h == 0) by (nonlinear_arith)
            requires
                n == 0,
        ;
    }
}

} // verus!

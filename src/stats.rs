use vstd::prelude::*;
use vstd::relations::{sorted_by, total_ordering};
use vstd::seq_lib::lemma_sorted_unique;

verus! {

/// Ascending order on fixed-point values.
pub open spec fn leq_i64(a: i64, b: i64) -> bool {
    a <= b
}

/// The values in ascending order.
pub open spec fn ascending(s: Seq<i64>) -> Seq<i64> {
    s.sort_by(|a: i64, b: i64| leq_i64(a, b))
}

/// Sum of the values.
pub open spec fn sum_of(s: Seq<i64>) -> int
    decreases s.len(),
{
    if s.len() == 0 {
        0
    } else {
        sum_of(s.drop_last()) + s.last() as int
    }
}

/// Sum of the squared deviations `(n * x - total)^2`, over the values `x`
/// of `s`: `n^3` times the population variance of a sample of size `n`
/// and sum `total`.
pub open spec fn scaled_square_deviations(s: Seq<i64>, n: int, total: int) -> int
    decreases s.len(),
{
    if s.len() == 0 {
        0
    } else {
        scaled_square_deviations(s.drop_last(), n, total) + (n * s.last() - total) * (n * s.last() - total)
    }
}

/// `r` is the square root of `v`, rounded down.
pub open spec fn is_floor_sqrt(r: int, v: int) -> bool {
    r >= 0 && r * r <= v && v < (r + 1) * (r + 1)
}

/// The lower-middle and upper-middle average of a sorted sequence.
pub open spec fn median_of(sorted: Seq<i64>) -> int
    recommends
        sorted.len() > 0,
{
    let n = sorted.len() as int;
    if n % 2 == 0 {
        (sorted[n / 2 - 1] + sorted[n / 2]) / 2
    } else {
        sorted[n / 2] as int
    }
}

/// Mean of the values, rounded down; zero for no values.
pub open spec fn mean_of(s: Seq<i64>) -> int {
    if s.len() == 0 {
        0
    } else {
        sum_of(s) / (s.len() as int)
    }
}

/// `a / b` rounded toward negative infinity.
pub fn floor_div(a: i128, b: i128) -> (r: i128)
    requires
        b > 0,
    ensures
        r == a / b,
{
    if a >= 0 {
        a / b
    } else {
        let m = -(a + 1);
        assert(m / b <= m) by (nonlinear_arith)
            requires m >= 0, b > 0;
        let q = m / b;
        proof {
            assert(-q - 1 == a / b) by (nonlinear_arith)
                requires a < 0, b > 0, m == -(a + 1), q == m / b;
        }
        -q - 1
    }
}

/// Square root of `v`, rounded down.
pub fn floor_sqrt(v: i128) -> (r: i128)
    requires
        0 <= v < 0x4000_0000_0000_0000_0000_0000_0000_0000,
    ensures
        is_floor_sqrt(r as int, v as int),
        r < 0x8000_0000_0000_0000,
{
    let mut lo: i128 = 0;
    let mut hi: i128 = 0x8000_0000_0000_0000;
    assert(hi * hi == 0x4000_0000_0000_0000_0000_0000_0000_0000);
    while hi - lo > 1
        invariant
            0 <= lo < hi <= 0x8000_0000_0000_0000,
            lo * lo <= v,
            v < hi * hi,
        decreases hi - lo,
    {
        let mid = lo + (hi - lo) / 2;
        assert(mid * mid <= 0x4000_0000_0000_0000_0000_0000_0000_0000) by (nonlinear_arith)
            requires 0 <= mid <= 0x8000_0000_0000_0000;
        if mid * mid <= v {
            lo = mid;
        } else {
            hi = mid;
        }
    }
    lo
}

/// Relies on `slice::sort`: sorts in ascending order, keeping every
/// element.
#[verifier::external_body]
fn sort_ascending(v: &mut Vec<i64>)
    ensures
        final(v)@.to_multiset() == old(v)@.to_multiset(),
        forall|i: int, j: int| 0 <= i < j < final(v)@.len() ==> final(v)@[i] <= final(v)@[j],
{
    v.sort();
}

proof fn lemma_leq_total()
    ensures
        total_ordering(|a: i64, b: i64| leq_i64(a, b)),
{
}

/// The values of `v` in ascending order.
pub fn sorted_copy(v: &Vec<i64>) -> (r: Vec<i64>)
    ensures
        r@ == ascending(v@),
        r@.len() == v@.len(),
        forall|i: int| 0 <= i < r@.len() ==> v@.contains(#[trigger] r@[i]),
{
    let mut r = v.clone();
    sort_ascending(&mut r);
    proof {
        r@.to_multiset_ensures();
        v@.to_multiset_ensures();
        assert(r@.len() == v@.len());
        assert forall|i: int| 0 <= i < r@.len() implies v@.contains(#[trigger] r@[i]) by {
            assert(r@.contains(r@[i]));
            assert(r@.to_multiset().count(r@[i]) > 0);
            assert(v@.to_multiset().count(r@[i]) > 0);
        }
        let leq = |a: i64, b: i64| leq_i64(a, b);
        lemma_leq_total();
        v@.lemma_sort_by_ensures(leq);
        assert(sorted_by(r@, leq));
        lemma_sorted_unique(r@, ascending(v@), leq);
    }
    r
}

} // verus!

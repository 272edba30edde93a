//! Over a number type whose operations are functions of their operands, an
//! analysis is a function of the samples.

use vstd::prelude::*;
use crate::accumulator::{
    is_analysis, is_binned_analysis_with, is_binned_error, is_limit, COARSE_BINS, FINE_BINS,
    TOLERANCE_PERCENT,
};
use crate::analyzed::Analyzed;
use crate::blocks::{block, is_bin_means};
use crate::scalar::{
    deterministic, is_count, is_exceeds, is_minus, is_over, is_plus, is_root, is_times, is_zero,
    Scalar,
};
use crate::series::{
    is_mean, is_pairs, is_spread, is_square_deviation, is_total, is_variance_of_mean,
};

verus! {

/// A series has one sum.
pub proof fn lemma_total_unique<T: Scalar>(s: Seq<T>, r1: T, r2: T)
    requires
        deterministic::<T>(),
        is_total(s, r1),
        is_total(s, r2),
    ensures
        r1 == r2,
    decreases s.len(),
{
    if s.len() > 0 {
        let pa = choose|p: T| is_total(s.drop_last(), p) && #[trigger] is_plus(p, s.last(), r1);
        let pb = choose|p: T| is_total(s.drop_last(), p) && #[trigger] is_plus(p, s.last(), r2);
        lemma_total_unique(s.drop_last(), pa, pb);
    }
}

/// A series has one mean.
pub proof fn lemma_mean_unique<T: Scalar>(s: Seq<T>, r1: T, r2: T)
    requires
        deterministic::<T>(),
        is_mean(s, r1),
        is_mean(s, r2),
    ensures
        r1 == r2,
{
    let (t1, n1) = choose|t: T, n: T|
        is_total(s, t) && is_count(s.len() as usize, n) && #[trigger] is_over(t, n, r1);
    let (t2, n2) = choose|t: T, n: T|
        is_total(s, t) && is_count(s.len() as usize, n) && #[trigger] is_over(t, n, r2);
    lemma_total_unique(s, t1, t2);
}

/// A sample has one squared deviation from a centre.
pub proof fn lemma_square_deviation_unique<T: Scalar>(x: T, center: T, r1: T, r2: T)
    requires
        deterministic::<T>(),
        is_square_deviation(x, center, r1),
        is_square_deviation(x, center, r2),
    ensures
        r1 == r2,
{
    let d1 = choose|d: T| is_minus(x, center, d) && #[trigger] is_times(d, d, r1);
    let d2 = choose|d: T| is_minus(x, center, d) && #[trigger] is_times(d, d, r2);
    assert(d1 == d2);
}

/// A series has one spread about a centre.
pub proof fn lemma_spread_unique<T: Scalar>(s: Seq<T>, center: T, r1: T, r2: T)
    requires
        deterministic::<T>(),
        is_spread(s, center, r1),
        is_spread(s, center, r2),
    ensures
        r1 == r2,
    decreases s.len(),
{
    if s.len() > 0 {
        let (pa, qa) = choose|p: T, q: T|
            is_spread(s.drop_last(), center, p) && is_square_deviation(s.last(), center, q)
                && #[trigger] is_plus(p, q, r1);
        let (pb, qb) = choose|p: T, q: T|
            is_spread(s.drop_last(), center, p) && is_square_deviation(s.last(), center, q)
                && #[trigger] is_plus(p, q, r2);
        lemma_spread_unique(s.drop_last(), center, pa, pb);
        lemma_square_deviation_unique(s.last(), center, qa, qb);
    }
}

/// A count has one number of pairs.
pub proof fn lemma_pairs_unique<T: Scalar>(n: usize, r1: T, r2: T)
    requires
        deterministic::<T>(),
        is_pairs(n, r1),
        is_pairs(n, r2),
    ensures
        r1 == r2,
{
    let (a1, b1) = choose|a: T, b: T|
        is_count(n, a) && is_count((n - 1) as usize, b) && #[trigger] is_times(a, b, r1);
    let (a2, b2) = choose|a: T, b: T|
        is_count(n, a) && is_count((n - 1) as usize, b) && #[trigger] is_times(a, b, r2);
    assert(a1 == a2);
    assert(b1 == b2);
}

/// A series has one variance of the mean about a centre.
pub proof fn lemma_variance_of_mean_unique<T: Scalar>(s: Seq<T>, center: T, r1: T, r2: T)
    requires
        deterministic::<T>(),
        is_variance_of_mean(s, center, r1),
        is_variance_of_mean(s, center, r2),
    ensures
        r1 == r2,
{
    let (d1, k1) = choose|d: T, k: T|
        is_spread(s, center, d) && is_pairs(s.len() as usize, k) && #[trigger] is_over(d, k, r1);
    let (d2, k2) = choose|d: T, k: T|
        is_spread(s, center, d) && is_pairs(s.len() as usize, k) && #[trigger] is_over(d, k, r2);
    lemma_spread_unique(s, center, d1, d2);
    lemma_pairs_unique(s.len() as usize, k1, k2);
}

/// The blocks of a series have one sequence of means.
pub proof fn lemma_bin_means_unique<T: Scalar>(s: Seq<T>, bins: nat, m1: Seq<T>, m2: Seq<T>)
    requires
        deterministic::<T>(),
        is_bin_means(s, bins, m1),
        is_bin_means(s, bins, m2),
    ensures
        m1 == m2,
{
    assert forall|i: int| 0 <= i < bins implies m1[i] == m2[i] by {
        lemma_mean_unique(block(s, bins, i), m1[i], m2[i]);
    }
    assert(m1 =~= m2);
}

/// A cut into blocks gives one variance of the mean and one error.
pub proof fn lemma_binned_error_unique<T: Scalar>(
    s: Seq<T>,
    center: T,
    bins: nat,
    v1: T,
    e1: T,
    v2: T,
    e2: T,
)
    requires
        deterministic::<T>(),
        is_binned_error(s, center, bins, v1, e1),
        is_binned_error(s, center, bins, v2, e2),
    ensures
        v1 == v2,
        e1 == e2,
{
    let m1 = choose|m: Seq<T>|
        is_bin_means(s, bins, m) && #[trigger] is_variance_of_mean(m, center, v1) && is_root(v1, e1);
    let m2 = choose|m: Seq<T>|
        is_bin_means(s, bins, m) && #[trigger] is_variance_of_mean(m, center, v2) && is_root(v2, e2);
    lemma_bin_means_unique(s, bins, m1, m2);
    lemma_variance_of_mean_unique(m1, center, v1, v2);
}

/// An error has one bound.
pub proof fn lemma_limit_unique<T: Scalar>(error: T, r1: T, r2: T)
    requires
        deterministic::<T>(),
        is_limit(error, r1),
        is_limit(error, r2),
    ensures
        r1 == r2,
{
    let (a1, b1, t1) = choose|a: T, b: T, t: T|
        is_count(TOLERANCE_PERCENT, a) && is_count(100, b) && #[trigger] is_over(a, b, t)
            && is_times(error, t, r1);
    let (a2, b2, t2) = choose|a: T, b: T, t: T|
        is_count(TOLERANCE_PERCENT, a) && is_count(100, b) && #[trigger] is_over(a, b, t)
            && is_times(error, t, r2);
    assert(a1 == a2);
    assert(b1 == b2);
    assert(t1 == t2);
}

/// Two analyses of the same samples, in the same order, are the same in every
/// field.
pub proof fn lemma_analysis_unique<T: Scalar>(s: Seq<T>, a: Analyzed<T>, b: Analyzed<T>)
    requires
        deterministic::<T>(),
        is_analysis(s, a),
        is_analysis(s, b),
    ensures
        a == b,
{
    lemma_mean_unique(s, a.mean, b.mean);
    if s.len() < FINE_BINS {
        let va = choose|v: T| #[trigger] is_variance_of_mean(s, a.mean, v) && is_root(v, a.error);
        let vb = choose|v: T| #[trigger] is_variance_of_mean(s, b.mean, v) && is_root(v, b.error);
        lemma_variance_of_mean_unique(s, a.mean, va, vb);
        assert(is_zero(a.correlation_time) && is_zero(b.correlation_time));
    } else {
        let (na, fva, fea, cva, la) = choose|
            naive: T,
            fine_variance: T,
            fine_error: T,
            coarse_variance: T,
            limit: T,
        |
            is_binned_analysis_with(s, a, naive, fine_variance, fine_error, coarse_variance, limit);
        let (nb, fvb, feb, cvb, lb) = choose|
            naive: T,
            fine_variance: T,
            fine_error: T,
            coarse_variance: T,
            limit: T,
        |
            is_binned_analysis_with(s, b, naive, fine_variance, fine_error, coarse_variance, limit);
        lemma_variance_of_mean_unique(s, a.mean, na, nb);
        lemma_binned_error_unique(s, a.mean, FINE_BINS as nat, fva, fea, fvb, feb);
        lemma_binned_error_unique(s, a.mean, COARSE_BINS as nat, cva, a.error, cvb, b.error);
        lemma_limit_unique(a.error, la, lb);
        assert(is_over(cva, na, a.correlation_time) && is_over(cva, na, b.correlation_time));
        assert(is_exceeds(fea, la, !a.converged) && is_exceeds(fea, la, !b.converged));
    }
}

} // verus!

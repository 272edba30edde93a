//! Sums, means and variances of a sequence of numbers.

use vstd::prelude::*;
use crate::scalar::{is_count, is_minus, is_over, is_plus, is_times, is_zero, Scalar};

verus! {

/// `r` is a sum of `s`, added up from the left, starting at zero.
pub open spec fn is_total<T: Scalar>(s: Seq<T>, r: T) -> bool
    decreases s.len(),
{
    if s.len() == 0 {
        is_zero(r)
    } else {
        exists|p: T| is_total(s.drop_last(), p) && #[trigger] is_plus(p, s.last(), r)
    }
}

/// `r` is a mean of `s`: a sum of `s` over the number of its items.
pub open spec fn is_mean<T: Scalar>(s: Seq<T>, r: T) -> bool {
    exists|t: T, n: T| is_total(s, t) && is_count(s.len() as usize, n) && #[trigger] is_over(t, n, r)
}

/// `r` is a square of the deviation of `x` from `center`.
pub open spec fn is_square_deviation<T: Scalar>(x: T, center: T, r: T) -> bool {
    exists|d: T| is_minus(x, center, d) && #[trigger] is_times(d, d, r)
}

/// `r` is a sum of the squared deviations of the items of `s` from `center`,
/// added up from the left, starting at zero.
pub open spec fn is_spread<T: Scalar>(s: Seq<T>, center: T, r: T) -> bool
    decreases s.len(),
{
    if s.len() == 0 {
        is_zero(r)
    } else {
        exists|p: T, q: T|
            is_spread(s.drop_last(), center, p) && is_square_deviation(s.last(), center, q)
                && #[trigger] is_plus(p, q, r)
    }
}

/// `r` is the product of the numbers that stand for `n` and for `n - 1`.
pub open spec fn is_pairs<T: Scalar>(n: usize, r: T) -> bool {
    exists|a: T, b: T| is_count(n, a) && is_count((n - 1) as usize, b) && #[trigger] is_times(a, b, r)
}

/// `r` is a variance of the mean of `s` about `center`: the spread of `s`
/// about `center` over `n * (n - 1)`, where `n` is the number of items.
pub open spec fn is_variance_of_mean<T: Scalar>(s: Seq<T>, center: T, r: T) -> bool {
    exists|d: T, k: T|
        is_spread(s, center, d) && is_pairs(s.len() as usize, k) && #[trigger] is_over(d, k, r)
}

/// Adds up the items of `samples` from the left.
pub fn total<T: Scalar>(samples: &[T]) -> (r: T)
    ensures
        is_total(samples@, r),
{
    let mut acc = T::zero();
    let mut i: usize = 0;
    while i < samples.len()
        invariant
            i <= samples.len(),
            is_total(samples@.take(i as int), acc),
        decreases samples.len() - i,
    {
        let next = acc.plus(samples[i]);
        proof {
            let s = samples@.take(i + 1);
            assert(s.drop_last() =~= samples@.take(i as int));
            assert(is_plus(acc, s.last(), next));
        }
        acc = next;
        i += 1;
    }
    proof {
        assert(samples@.take(i as int) =~= samples@);
    }
    acc
}

/// The mean of `samples`.
pub fn mean<T: Scalar>(samples: &[T]) -> (r: T)
    ensures
        is_mean(samples@, r),
{
    let t = total(samples);
    let n = T::from_count(samples.len());
    let r = t.over(n);
    proof {
        assert(is_over(t, n, r));
    }
    r
}

/// The square of the deviation of `x` from `center`.
pub fn square_deviation<T: Scalar>(x: T, center: T) -> (r: T)
    ensures
        is_square_deviation(x, center, r),
{
    let d = x.minus(center);
    let r = d.times(d);
    proof {
        assert(is_times(d, d, r));
    }
    r
}

/// Adds up the squared deviations of the items of `samples` from `center`.
pub fn spread<T: Scalar>(samples: &[T], center: T) -> (r: T)
    ensures
        is_spread(samples@, center, r),
{
    let mut acc = T::zero();
    let mut i: usize = 0;
    while i < samples.len()
        invariant
            i <= samples.len(),
            is_spread(samples@.take(i as int), center, acc),
        decreases samples.len() - i,
    {
        let q = square_deviation(samples[i], center);
        let next = acc.plus(q);
        proof {
            let s = samples@.take(i + 1);
            assert(s.drop_last() =~= samples@.take(i as int));
            assert(is_plus(acc, q, next));
        }
        acc = next;
        i += 1;
    }
    proof {
        assert(samples@.take(i as int) =~= samples@);
    }
    acc
}

/// The number that stands for `n * (n - 1)`.
pub fn pairs<T: Scalar>(n: usize) -> (r: T)
    requires
        n >= 1,
    ensures
        is_pairs(n, r),
{
    let a = T::from_count(n);
    let b = T::from_count(n - 1);
    let r = a.times(b);
    proof {
        assert(is_times(a, b, r));
    }
    r
}

/// The variance of the mean of `samples` about `center`.
pub fn variance_of_mean<T: Scalar>(samples: &[T], center: T) -> (r: T)
    requires
        samples@.len() >= 1,
    ensures
        is_variance_of_mean(samples@, center, r),
{
    let d = spread(samples, center);
    let k = pairs(samples.len());
    let r = d.over(k);
    proof {
        assert(is_over(d, k, r));
    }
    r
}

} // verus!

//! The result of an analysis, and the arithmetic of independent results.

use vstd::prelude::*;
use vstd::std_specs::ops::{AddSpecImpl, DivSpecImpl, MulSpecImpl, SubSpecImpl};
use crate::scalar::{is_larger, is_minus, is_over, is_plus, is_root, is_times, Scalar};

verus! {

/// A measured quantity: its mean, the error of the mean (one standard
/// deviation), the number of samples behind it, its correlation time, and
/// whether the error estimate is judged reliable.
#[derive(Debug, PartialEq)]
pub struct Analyzed<T> {
    pub mean: T,
    pub error: T,
    pub number_of_inputs: u32,
    pub correlation_time: T,
    pub converged: bool,
}

impl<T: Copy> Clone for Analyzed<T> {
    fn clone(&self) -> (r: Self)
        ensures
            r == *self,
    {
        *self
    }
}

impl<T: Copy> Copy for Analyzed<T> {

}

/// `r` is a root of the sum of the squares of `a` and `b`.
pub open spec fn is_quadrature<T: Scalar>(a: T, b: T, r: T) -> bool {
    exists|sa: T, sb: T, t: T|
        is_times(a, a, sa) && is_times(b, b, sb) && #[trigger] is_plus(sa, sb, t) && is_root(t, r)
}

/// The smaller of two counts.
pub open spec fn fewer(a: u32, b: u32) -> u32 {
    if a <= b {
        a
    } else {
        b
    }
}

/// What every combination of two independent quantities does with the fields
/// that are no numbers of the quantity itself: the result rests on the fewer
/// samples, has the larger correlation time, and has converged where both have.
pub open spec fn is_joint<T: Scalar>(a: Analyzed<T>, b: Analyzed<T>, r: Analyzed<T>) -> bool {
    &&& r.number_of_inputs == fewer(a.number_of_inputs, b.number_of_inputs)
    &&& is_larger(a.correlation_time, b.correlation_time, r.correlation_time)
    &&& r.converged == (a.converged && b.converged)
}

/// `r` is a sum of the independent quantities `a` and `b`: the means add, the
/// errors add in quadrature.
pub open spec fn is_sum_of<T: Scalar>(a: Analyzed<T>, b: Analyzed<T>, r: Analyzed<T>) -> bool {
    &&& is_plus(a.mean, b.mean, r.mean)
    &&& is_quadrature(a.error, b.error, r.error)
    &&& is_joint(a, b, r)
}

/// `r` is a difference of the independent quantities `a` and `b`: the means
/// subtract, the errors add in quadrature.
pub open spec fn is_difference_of<T: Scalar>(
    a: Analyzed<T>,
    b: Analyzed<T>,
    r: Analyzed<T>,
) -> bool {
    &&& is_minus(a.mean, b.mean, r.mean)
    &&& is_quadrature(a.error, b.error, r.error)
    &&& is_joint(a, b, r)
}

/// `r` is a propagated error of the product of `a` and `b`: the quadrature of
/// `b.mean * a.error` and `a.mean * b.error`.
pub open spec fn is_product_error<T: Scalar>(a: Analyzed<T>, b: Analyzed<T>, r: T) -> bool {
    exists|t1: T, t2: T|
        is_times(b.mean, a.error, t1) && is_times(a.mean, b.error, t2) && #[trigger] is_quadrature(
            t1,
            t2,
            r,
        )
}

/// `r` is a product of the independent quantities `a` and `b`.
pub open spec fn is_product_of<T: Scalar>(a: Analyzed<T>, b: Analyzed<T>, r: Analyzed<T>) -> bool {
    &&& is_times(a.mean, b.mean, r.mean)
    &&& is_product_error(a, b, r.error)
    &&& is_joint(a, b, r)
}

/// `r` is a propagated error of the quotient of `a` by `b`: the quadrature of
/// `a.error / b.mean` and `a.mean * b.error / b.mean / b.mean`.
pub open spec fn is_quotient_error<T: Scalar>(a: Analyzed<T>, b: Analyzed<T>, r: T) -> bool {
    exists|t1: T, p: T, q: T, t2: T|
        is_over(a.error, b.mean, t1) && #[trigger] is_times(a.mean, b.error, p) && #[trigger] is_over(
            p,
            b.mean,
            q,
        ) && is_over(q, b.mean, t2) && #[trigger] is_quadrature(t1, t2, r)
}

/// `r` is a quotient of the independent quantities `a` and `b`.
pub open spec fn is_quotient_of<T: Scalar>(a: Analyzed<T>, b: Analyzed<T>, r: Analyzed<T>) -> bool {
    &&& is_over(a.mean, b.mean, r.mean)
    &&& is_quotient_error(a, b, r.error)
    &&& is_joint(a, b, r)
}

/// The root of the sum of the squares of `a` and `b`.
pub fn quadrature<T: Scalar>(a: T, b: T) -> (r: T)
    ensures
        is_quadrature(a, b, r),
{
    let sa = a.times(a);
    let sb = b.times(b);
    let t = sa.plus(sb);
    let r = t.root();
    proof {
        assert(is_plus(sa, sb, t));
    }
    r
}

impl<T: Scalar> Analyzed<T> {
    /// Puts `mean` and `error` beside the fields that every combination of
    /// `self` and `rhs` shares.
    fn joint(self, rhs: Self, mean: T, error: T) -> (r: Self)
        ensures
            r.mean == mean,
            r.error == error,
            is_joint(self, rhs, r),
    {
        Analyzed {
            mean,
            error,
            number_of_inputs: if self.number_of_inputs <= rhs.number_of_inputs {
                self.number_of_inputs
            } else {
                rhs.number_of_inputs
            },
            correlation_time: self.correlation_time.larger(rhs.correlation_time),
            converged: self.converged && rhs.converged,
        }
    }
}

/// The operators on `Analyzed` are relations, not functions, of their
/// operands: what comes out is whatever the number type's operations return.
/// Each operator therefore states its own contract and leaves the functional
/// form unused.
impl<T: Scalar> AddSpecImpl for Analyzed<T> {
    open spec fn obeys_add_spec() -> bool {
        false
    }

    open spec fn add_req(self, rhs: Self) -> bool {
        true
    }

    open spec fn add_spec(self, rhs: Self) -> Self {
        self
    }
}

impl<T: Scalar> core::ops::Add for Analyzed<T> {
    type Output = Self;

    /// The sum of two independent quantities.
    fn add(self, rhs: Self) -> (r: Self)
        ensures
            is_sum_of(self, rhs, r),
    {
        let mean = self.mean.plus(rhs.mean);
        let error = quadrature(self.error, rhs.error);
        self.joint(rhs, mean, error)
    }
}

impl<T: Scalar> SubSpecImpl for Analyzed<T> {
    open spec fn obeys_sub_spec() -> bool {
        false
    }

    open spec fn sub_req(self, rhs: Self) -> bool {
        true
    }

    open spec fn sub_spec(self, rhs: Self) -> Self {
        self
    }
}

impl<T: Scalar> core::ops::Sub for Analyzed<T> {
    type Output = Self;

    /// The difference of two independent quantities.
    fn sub(self, rhs: Self) -> (r: Self)
        ensures
            is_difference_of(self, rhs, r),
    {
        let mean = self.mean.minus(rhs.mean);
        let error = quadrature(self.error, rhs.error);
        self.joint(rhs, mean, error)
    }
}

impl<T: Scalar> MulSpecImpl for Analyzed<T> {
    open spec fn obeys_mul_spec() -> bool {
        false
    }

    open spec fn mul_req(self, rhs: Self) -> bool {
        true
    }

    open spec fn mul_spec(self, rhs: Self) -> Self {
        self
    }
}

impl<T: Scalar> core::ops::Mul for Analyzed<T> {
    type Output = Self;

    /// The product of two independent quantities.
    fn mul(self, rhs: Self) -> (r: Self)
        ensures
            is_product_of(self, rhs, r),
    {
        let mean = self.mean.times(rhs.mean);
        let t1 = rhs.mean.times(self.error);
        let t2 = self.mean.times(rhs.error);
        let error = quadrature(t1, t2);
        proof {
            assert(is_quadrature(t1, t2, error));
        }
        self.joint(rhs, mean, error)
    }
}

impl<T: Scalar> DivSpecImpl for Analyzed<T> {
    open spec fn obeys_div_spec() -> bool {
        false
    }

    open spec fn div_req(self, rhs: Self) -> bool {
        true
    }

    open spec fn div_spec(self, rhs: Self) -> Self {
        self
    }
}

impl<T: Scalar> core::ops::Div for Analyzed<T> {
    type Output = Self;

    /// The quotient of two independent quantities. A divisor whose mean is
    /// zero is no error: the number type decides what comes out.
    fn div(self, rhs: Self) -> (r: Self)
        ensures
            is_quotient_of(self, rhs, r),
    {
        let mean = self.mean.over(rhs.mean);
        let t1 = self.error.over(rhs.mean);
        let p = self.mean.times(rhs.error);
        let q = p.over(rhs.mean);
        let t2 = q.over(rhs.mean);
        let error = quadrature(t1, t2);
        proof {
            assert(is_times(self.mean, rhs.error, p));
            assert(is_over(p, rhs.mean, q));
            assert(is_quadrature(t1, t2, error));
        }
        self.joint(rhs, mean, error)
    }
}

} // verus!

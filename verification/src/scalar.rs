//! The interface of a number type, and the input-output relations of its
//! operations.

use vstd::prelude::*;

verus! {

/// A real-valued number type: arithmetic, square root, comparison, conversion
/// from a count of samples, and a textual form.
///
/// The methods carry no contract. What the library proves is stated over the
/// relations below, each of which holds of exactly the results that a call of
/// the method can return on the given operands.
pub trait Scalar: Sized + Copy {
    /// The additive identity.
    fn zero() -> Self;

    /// The number that stands for a count.
    fn from_count(count: usize) -> Self;

    /// `self + rhs`.
    fn plus(self, rhs: Self) -> Self;

    /// `self - rhs`.
    fn minus(self, rhs: Self) -> Self;

    /// `self * rhs`.
    fn times(self, rhs: Self) -> Self;

    /// `self / rhs`. A zero divisor is no error: the number type decides what
    /// comes out.
    fn over(self, rhs: Self) -> Self;

    /// The square root of `self`.
    fn root(self) -> Self;

    /// Whether `self > rhs`.
    fn exceeds(self, rhs: Self) -> bool;

    /// The larger of `self` and `rhs`.
    fn larger(self, rhs: Self) -> Self;

    /// The textual form of `self`.
    fn text(self) -> String;
}

/// `r` is a result of `T::zero()`.
pub open spec fn is_zero<T: Scalar>(r: T) -> bool {
    call_ensures(T::zero, (), r)
}

/// `r` is a result of `T::from_count(count)`.
pub open spec fn is_count<T: Scalar>(count: usize, r: T) -> bool {
    call_ensures(T::from_count, (count,), r)
}

/// `r` is a result of `a.plus(b)`.
pub open spec fn is_plus<T: Scalar>(a: T, b: T, r: T) -> bool {
    call_ensures(T::plus, (a, b), r)
}

/// `r` is a result of `a.minus(b)`.
pub open spec fn is_minus<T: Scalar>(a: T, b: T, r: T) -> bool {
    call_ensures(T::minus, (a, b), r)
}

/// `r` is a result of `a.times(b)`.
pub open spec fn is_times<T: Scalar>(a: T, b: T, r: T) -> bool {
    call_ensures(T::times, (a, b), r)
}

/// `r` is a result of `a.over(b)`.
pub open spec fn is_over<T: Scalar>(a: T, b: T, r: T) -> bool {
    call_ensures(T::over, (a, b), r)
}

/// `r` is a result of `a.root()`.
pub open spec fn is_root<T: Scalar>(a: T, r: T) -> bool {
    call_ensures(T::root, (a,), r)
}

/// `r` is a result of `a.exceeds(b)`.
pub open spec fn is_exceeds<T: Scalar>(a: T, b: T, r: bool) -> bool {
    call_ensures(T::exceeds, (a, b), r)
}

/// `r` is a result of `a.larger(b)`.
pub open spec fn is_larger<T: Scalar>(a: T, b: T, r: T) -> bool {
    call_ensures(T::larger, (a, b), r)
}

/// `r` is a result of `a.text()`.
pub open spec fn is_text<T: Scalar>(a: T, r: Seq<char>) -> bool {
    exists|s: String| #[trigger] call_ensures(T::text, (a,), s) && s@ == r
}

/// Every operation of `T` is a function of its operands: two calls on the same
/// operands return the same result.
pub open spec fn deterministic<T: Scalar>() -> bool {
    &&& forall|r1: T, r2: T| #[trigger] is_zero(r1) && #[trigger] is_zero(r2) ==> r1 == r2
    &&& forall|n: usize, r1: T, r2: T| #[trigger]
        is_count(n, r1) && #[trigger] is_count(n, r2) ==> r1 == r2
    &&& forall|a: T, b: T, r1: T, r2: T| #[trigger]
        is_plus(a, b, r1) && #[trigger] is_plus(a, b, r2) ==> r1 == r2
    &&& forall|a: T, b: T, r1: T, r2: T| #[trigger]
        is_minus(a, b, r1) && #[trigger] is_minus(a, b, r2) ==> r1 == r2
    &&& forall|a: T, b: T, r1: T, r2: T| #[trigger]
        is_times(a, b, r1) && #[trigger] is_times(a, b, r2) ==> r1 == r2
    &&& forall|a: T, b: T, r1: T, r2: T| #[trigger]
        is_over(a, b, r1) && #[trigger] is_over(a, b, r2) ==> r1 == r2
    &&& forall|a: T, r1: T, r2: T| #[trigger] is_root(a, r1) && #[trigger] is_root(a, r2) ==> r1 == r2
    &&& forall|a: T, b: T, r1: bool, r2: bool| #[trigger]
        is_exceeds(a, b, r1) && #[trigger] is_exceeds(a, b, r2) ==> r1 == r2
    &&& forall|a: T, b: T, r1: T, r2: T| #[trigger]
        is_larger(a, b, r1) && #[trigger] is_larger(a, b, r2) ==> r1 == r2
    &&& forall|a: T, r1: Seq<char>, r2: Seq<char>| #[trigger]
        is_text(a, r1) && #[trigger] is_text(a, r2) ==> r1 == r2
}

} // verus!

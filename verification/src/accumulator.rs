//! The buffer of observations and its analysis.

use vstd::prelude::*;
use crate::analyzed::Analyzed;
use crate::blocks::{bin_means, is_bin_means};
use crate::scalar::{is_count, is_exceeds, is_over, is_root, is_times, is_zero, Scalar};
use crate::series::{is_mean, is_variance_of_mean, mean, variance_of_mean};

verus! {

/// The number of blocks of the finer cut.
pub const FINE_BINS: usize = 32;

/// The number of blocks of the coarser cut, whose error is the one reported.
pub const COARSE_BINS: usize = 16;

/// By how many percent of the coarse error the fine error may reach without
/// the estimate being judged unreliable.
pub const TOLERANCE_PERCENT: usize = 105;

/// The number of samples, as an `Analyzed` reports it: the count itself where
/// it fits, else its low 32 bits.
pub open spec fn reported_count(n: nat) -> u32 {
    (n % 0x1_0000_0000) as u32
}

/// `variance` is a variance of the mean of `s` about `center` as its `bins`
/// blocks give it, and `error` is a root of it: the blocks' means stand for
/// the samples.
pub open spec fn is_binned_error<T: Scalar>(
    s: Seq<T>,
    center: T,
    bins: nat,
    variance: T,
    error: T,
) -> bool {
    exists|m: Seq<T>|
        is_bin_means(s, bins, m) && #[trigger] is_variance_of_mean(m, center, variance) && is_root(
            variance,
            error,
        )
}

/// `r` is the bound that the fine error is held against: `error` times
/// `TOLERANCE_PERCENT / 100`.
pub open spec fn is_limit<T: Scalar>(error: T, r: T) -> bool {
    exists|a: T, b: T, t: T|
        is_count(TOLERANCE_PERCENT, a) && is_count(100, b) && #[trigger] is_over(a, b, t)
            && is_times(error, t, r)
}

/// `a` is an analysis of the few samples `s`, too few to cut into blocks: the
/// error is a root of the variance of the mean of the samples themselves, no
/// correlation time is estimated, and nothing has converged.
pub open spec fn is_naive_analysis<T: Scalar>(s: Seq<T>, a: Analyzed<T>) -> bool {
    &&& is_mean(s, a.mean)
    &&& exists|v: T| #[trigger] is_variance_of_mean(s, a.mean, v) && is_root(v, a.error)
    &&& is_zero(a.correlation_time)
    &&& a.number_of_inputs == reported_count(s.len())
    &&& !a.converged
}

/// `a` is an analysis of `s` by blocks, where `naive` is the variance of the
/// mean of the samples themselves, `fine_variance` and `fine_error` are what
/// `FINE_BINS` blocks give, `coarse_variance` is what `COARSE_BINS` blocks
/// give, and `limit` is the bound for the fine error.
pub open spec fn is_binned_analysis_with<T: Scalar>(
    s: Seq<T>,
    a: Analyzed<T>,
    naive: T,
    fine_variance: T,
    fine_error: T,
    coarse_variance: T,
    limit: T,
) -> bool {
    &&& is_mean(s, a.mean)
    &&& is_variance_of_mean(s, a.mean, naive)
    &&& is_binned_error(s, a.mean, FINE_BINS as nat, fine_variance, fine_error)
    &&& is_binned_error(s, a.mean, COARSE_BINS as nat, coarse_variance, a.error)
    &&& is_over(coarse_variance, naive, a.correlation_time)
    &&& is_limit(a.error, limit)
    &&& is_exceeds(fine_error, limit, !a.converged)
    &&& a.number_of_inputs == reported_count(s.len())
}

/// `a` is an analysis of `s` by blocks: the error is the one of the coarse
/// cut, the correlation time is the coarse variance over the naive one, and
/// the estimate has converged unless the fine error exceeds the coarse error
/// by more than the tolerance.
pub open spec fn is_binned_analysis<T: Scalar>(s: Seq<T>, a: Analyzed<T>) -> bool {
    exists|naive: T, fine_variance: T, fine_error: T, coarse_variance: T, limit: T|
        is_binned_analysis_with(s, a, naive, fine_variance, fine_error, coarse_variance, limit)
}

/// `a` is an analysis of the samples `s`.
pub open spec fn is_analysis<T: Scalar>(s: Seq<T>, a: Analyzed<T>) -> bool {
    if s.len() < FINE_BINS {
        s.len() > 0 && is_naive_analysis(s, a)
    } else {
        is_binned_analysis(s, a)
    }
}

/// The text of the one error: there is nothing to analyse.
pub open spec fn empty_dataset() -> Seq<char> {
    "Dataset has no data"@
}

/// The number of samples as an `Analyzed` reports it.
pub fn report_count(n: usize) -> (r: u32)
    ensures
        r == reported_count(n as nat),
        n <= u32::MAX ==> r == n,
{
    let wide: u64 = n as u64;
    (wide % 0x1_0000_0000) as u32
}

/// The variance of the mean that `bins` blocks of `samples` give, and its
/// root.
pub fn binned_error<T: Scalar>(samples: &[T], center: T, bins: usize) -> (r: (T, T))
    requires
        bins > 0,
    ensures
        is_binned_error(samples@, center, bins as nat, r.0, r.1),
{
    let m = bin_means(samples, bins);
    let variance = variance_of_mean(m.as_slice(), center);
    let error = variance.root();
    proof {
        assert(is_variance_of_mean(m@, center, variance));
    }
    (variance, error)
}

/// The bound that the fine error is held against.
pub fn limit<T: Scalar>(error: T) -> (r: T)
    ensures
        is_limit(error, r),
{
    let a = T::from_count(TOLERANCE_PERCENT);
    let b = T::from_count(100);
    let t = a.over(b);
    let r = error.times(t);
    proof {
        assert(is_over(a, b, t));
    }
    r
}

/// Observations of one quantity, in the order in which they were taken.
#[derive(Debug, PartialEq)]
pub struct Accumulator<T> {
    dataset: Vec<T>,
}

impl<T> View for Accumulator<T> {
    type V = Seq<T>;

    /// The observations, oldest first.
    closed spec fn view(&self) -> Seq<T> {
        self.dataset@
    }
}

impl<T> Accumulator<T> {
    /// An accumulator without observations.
    pub fn new() -> (r: Self)
        ensures
            r@ == Seq::<T>::empty(),
    {
        Accumulator { dataset: Vec::new() }
    }

    /// Appends one observation. The earlier ones stay as they are.
    pub fn push(&mut self, observable: T)
        ensures
            final(self)@ == old(self)@.push(observable),
    {
        self.dataset.push(observable);
    }

    /// The observations, oldest first.
    pub fn samples(&self) -> (r: &[T])
        ensures
            r@ == self@,
    {
        self.dataset.as_slice()
    }
}

impl<T: Scalar> Accumulator<T> {
    /// Analyses the observations and uses them up. Without observations there
    /// is nothing to analyse, and the error says so.
    pub fn binning(self) -> (r: Result<Analyzed<T>, String>)
        ensures
            r is Err <==> self@.len() == 0,
            r is Err ==> r->Err_0@ == empty_dataset(),
            r is Ok ==> is_analysis(self@, r->Ok_0),
            r is Ok && self@.len() < FINE_BINS ==> is_naive_analysis(self@, r->Ok_0),
            r is Ok && self@.len() >= FINE_BINS ==> is_binned_analysis(self@, r->Ok_0),
            r is Ok && self@.len() <= u32::MAX ==> r->Ok_0.number_of_inputs == self@.len(),
    {
        let data = self.dataset.as_slice();
        let n = data.len();
        if n == 0 {
            return Err(String::from_str("Dataset has no data"));
        }
        let mean = mean(data);
        let naive = variance_of_mean(data, mean);
        if n < FINE_BINS {
            let error = naive.root();
            let a = Analyzed {
                mean,
                error,
                number_of_inputs: report_count(n),
                correlation_time: T::zero(),
                converged: false,
            };
            proof {
                assert(is_variance_of_mean(self@, a.mean, naive) && is_root(naive, a.error));
                assert(is_naive_analysis(self@, a));
            }
            Ok(a)
        } else {
            let fine = binned_error(data, mean, FINE_BINS);
            let coarse = binned_error(data, mean, COARSE_BINS);
            let correlation_time = coarse.0.over(naive);
            let bound = limit(coarse.1);
            let converged = !fine.1.exceeds(bound);
            let a = Analyzed {
                mean,
                error: coarse.1,
                number_of_inputs: report_count(n),
                correlation_time,
                converged,
            };
            proof {
                assert(is_binned_analysis_with(self@, a, naive, fine.0, fine.1, coarse.0, bound));
            }
            Ok(a)
        }
    }
}

} // verus!

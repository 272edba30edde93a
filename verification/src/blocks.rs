//! The blocks into which a series is cut, and their means.

use vstd::prelude::*;
use vstd::slice::slice_subrange;
use crate::scalar::Scalar;
use crate::series::{is_mean, mean};

verus! {

/// The number of samples in each of `bins` blocks of a series of `n` samples.
pub open spec fn samples_per_bin(n: nat, bins: nat) -> nat {
    n / bins
}

/// Block `i` of `s` cut into `bins` blocks: the `samples_per_bin` consecutive
/// items that start at item `i * samples_per_bin`.
pub open spec fn block<T>(s: Seq<T>, bins: nat, i: int) -> Seq<T> {
    s.subrange(i * samples_per_bin(s.len(), bins), (i + 1) * samples_per_bin(s.len(), bins))
}

/// `m` holds, for each of the `bins` blocks of `s` in turn, a mean of it.
pub open spec fn is_bin_means<T: Scalar>(s: Seq<T>, bins: nat, m: Seq<T>) -> bool {
    &&& m.len() == bins
    &&& forall|i: int| 0 <= i < bins ==> is_mean(block(s, bins, i), #[trigger] m[i])
}

/// The blocks lie inside the series, one after the other in its order, and no
/// two of them share a sample. What they leave out is the tail of
/// `n % bins` samples.
pub proof fn lemma_blocks_disjoint_contiguous(n: nat, bins: nat, i: int, j: int)
    requires
        bins > 0,
        0 <= i < j < bins,
    ensures
        0 <= i * samples_per_bin(n, bins),
        (i + 1) * samples_per_bin(n, bins) <= j * samples_per_bin(n, bins),
        (j + 1) * samples_per_bin(n, bins) <= bins * samples_per_bin(n, bins),
        bins * samples_per_bin(n, bins) == n - n % bins,
        n % bins < bins,
{
    let per = samples_per_bin(n, bins) as int;
    assert(0 <= i * per) by (nonlinear_arith)
        requires
            0 <= i,
            0 <= per,
    ;
    assert((i + 1) * per <= j * per) by (nonlinear_arith)
        requires
            i + 1 <= j,
            0 <= per,
    ;
    assert((j + 1) * per <= bins * per) by (nonlinear_arith)
        requires
            j + 1 <= bins,
            0 <= per,
    ;
    assert(bins * (n / bins) == n - n % bins) by (nonlinear_arith)
        requires
            bins > 0,
    ;
}

/// A block holds the samples of the series in their order: item `k` of block
/// `i` is item `i * samples_per_bin + k` of the series.
pub proof fn lemma_block_items<T>(s: Seq<T>, bins: nat, i: int, k: int)
    requires
        bins > 0,
        0 <= i < bins,
        0 <= k < samples_per_bin(s.len(), bins),
    ensures
        block(s, bins, i).len() == samples_per_bin(s.len(), bins),
        i * samples_per_bin(s.len(), bins) + k < s.len(),
        block(s, bins, i)[k] == s[i * samples_per_bin(s.len(), bins) + k],
{
    lemma_block_inside(s.len(), bins, i);
}

/// Block `i` starts and ends inside a series of `n` samples.
pub proof fn lemma_block_inside(n: nat, bins: nat, i: int)
    requires
        bins > 0,
        0 <= i < bins,
    ensures
        0 <= i * samples_per_bin(n, bins) <= (i + 1) * samples_per_bin(n, bins) <= n,
        (i + 1) * samples_per_bin(n, bins) == i * samples_per_bin(n, bins) + samples_per_bin(
            n,
            bins,
        ),
{
    let per = samples_per_bin(n, bins) as int;
    assert(0 <= i * per) by (nonlinear_arith)
        requires
            0 <= i,
            0 <= per,
    ;
    assert((i + 1) * per == i * per + per) by (nonlinear_arith);
    assert((i + 1) * per <= bins * per) by (nonlinear_arith)
        requires
            i + 1 <= bins,
            0 <= per,
    ;
    assert(bins * (n / bins) <= n) by (nonlinear_arith)
        requires
            bins > 0,
    ;
}

/// The samples behind the last block take no part in the blocks' means: two
/// series of one length that agree on the samples inside the blocks have the
/// same means of blocks.
pub proof fn lemma_tail_left_out<T: Scalar>(s1: Seq<T>, s2: Seq<T>, bins: nat, m: Seq<T>)
    requires
        bins > 0,
        s1.len() == s2.len(),
        forall|k: int| 0 <= k < bins * samples_per_bin(s1.len(), bins) ==> s1[k] == s2[k],
        is_bin_means(s1, bins, m),
    ensures
        is_bin_means(s2, bins, m),
{
    assert forall|i: int| 0 <= i < bins implies is_mean(block(s2, bins, i), #[trigger] m[i]) by {
        lemma_block_inside(s1.len(), bins, i);
        let per = samples_per_bin(s1.len(), bins) as int;
        assert((i + 1) * per <= bins * per) by (nonlinear_arith)
            requires
                i + 1 <= bins,
                0 <= per,
        ;
        assert(block(s1, bins, i) =~= block(s2, bins, i));
    }
}

/// The means of the `bins` blocks of `samples`, in the order of the blocks.
pub fn bin_means<T: Scalar>(samples: &[T], bins: usize) -> (m: Vec<T>)
    requires
        bins > 0,
    ensures
        is_bin_means(samples@, bins as nat, m@),
{
    let per: usize = samples.len() / bins;
    let mut m: Vec<T> = Vec::new();
    let mut i: usize = 0;
    while i < bins
        invariant
            bins > 0,
            i <= bins,
            per == samples_per_bin(samples@.len(), bins as nat),
            samples@.len() <= usize::MAX,
            m@.len() == i,
            forall|j: int| 0 <= j < i ==> is_mean(block(samples@, bins as nat, j), #[trigger] m@[j]),
        decreases bins - i,
    {
        proof {
            lemma_block_inside(samples@.len(), bins as nat, i as int);
            assert(i * per + per <= samples@.len());
        }
        let start: usize = i * per;
        let b = mean(slice_subrange(samples, start, start + per));
        m.push(b);
        i += 1;
    }
    m
}

} // verus!

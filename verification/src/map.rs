//! The height field: a square, row-major grid of fixed-point height samples,
//! created by the noise pass, mutated in place by erosion, and read by
//! colorization and meshing.

use vstd::prelude::*;
use crate::fixed::fits;

verus! {

/// The largest grid edge the library accepts: keeps every index product and
/// every sum of heights within the range of the fixed-point arithmetic.
pub const MAX_GRID_SIZE: usize = 1025;

/// The largest magnitude a single height sample may reach inside the
/// pipeline: half the saturation cap, leaving headroom for intermediate
/// sums.
pub const SAMPLE_LIMIT: i64 = 0x2000_0000_0000;

/// The sum of a sequence of samples.
pub open spec fn sum_seq(s: Seq<i64>) -> int
    decreases s.len(),
{
    if s.len() == 0 {
        0
    } else {
        sum_seq(s.drop_last()) + s.last()
    }
}

/// Updating one sample changes the sum by the difference at that place.
pub proof fn lemma_sum_update(s: Seq<i64>, i: int, v: i64)
    requires
        0 <= i < s.len(),
    ensures
        sum_seq(s.update(i, v)) == sum_seq(s) - s[i] + v,
    decreases s.len(),
{
    if i == s.len() - 1 {
        assert(s.update(i, v).drop_last() =~= s.drop_last());
        assert(s.update(i, v).last() == v);
    } else {
        lemma_sum_update(s.drop_last(), i, v);
        assert(s.update(i, v).drop_last() =~= s.drop_last().update(i, v));
        assert(s.update(i, v).last() == s.last());
    }
}

/// Every sample of a sequence lies in `[lo, hi]`.
pub open spec fn all_in_range(s: Seq<i64>, lo: int, hi: int) -> bool {
    forall|i: int| 0 <= i < s.len() ==> lo <= #[trigger] s[i] <= hi
}

/// The sum of a sequence of samples in `[lo, hi]` (with `lo <= 0`) lies in
/// `[len * lo, len * hi]`.
pub proof fn lemma_sum_range(s: Seq<i64>, lo: int, hi: int)
    requires
        all_in_range(s, lo, hi),
        lo <= 0 <= hi,
    ensures
        s.len() * lo <= sum_seq(s) <= s.len() * hi,
    decreases s.len(),
{
    if s.len() == 0 {
    } else {
        assert(all_in_range(s.drop_last(), lo, hi));
        lemma_sum_range(s.drop_last(), lo, hi);
        assert((s.len() - 1) * lo + lo == s.len() * lo) by (nonlinear_arith);
        assert((s.len() - 1) * hi + hi == s.len() * hi) by (nonlinear_arith);
    }
}

/// A sequence of non-negative samples has a non-negative sum.
pub proof fn lemma_sum_nonneg(s: Seq<i64>)
    requires
        forall|i: int| 0 <= i < s.len() ==> 0 <= #[trigger] s[i],
    ensures
        0 <= sum_seq(s),
    decreases s.len(),
{
    if s.len() > 0 {
        assert(forall|i: int|
            0 <= i < s.drop_last().len() ==> 0 <= #[trigger] s.drop_last()[i]);
        lemma_sum_nonneg(s.drop_last());
    }
}

/// In a sequence of non-negative samples, each sample is at most the sum.
pub proof fn lemma_sum_element(s: Seq<i64>, i: int)
    requires
        forall|t: int| 0 <= t < s.len() ==> 0 <= #[trigger] s[t],
        0 <= i < s.len(),
    ensures
        s[i] <= sum_seq(s),
    decreases s.len(),
{
    assert(forall|t: int| 0 <= t < s.drop_last().len() ==> 0 <= #[trigger] s.drop_last()[t]);
    if i == s.len() - 1 {
        lemma_sum_nonneg(s.drop_last());
    } else {
        lemma_sum_element(s.drop_last(), i);
    }
}

/// A square grid of `size * size` fixed-point height samples, row-major:
/// the sample at grid position `(x, y)` is the element `x * size + y`.
#[derive(Clone, Debug)]
pub struct NoiseMap {
    pub size: usize,
    pub data: Vec<i64>,
}

impl NoiseMap {
    /// The backing vector holds exactly `size * size` samples.
    pub open spec fn wf(self) -> bool {
        self.data@.len() == self.size * self.size
    }

    /// The sample at `(x, y)`.
    pub open spec fn at(self, x: int, y: int) -> int {
        self.data@[x * self.size + y] as int
    }

    /// The sum of all samples.
    pub open spec fn total(self) -> int {
        sum_seq(self.data@)
    }

    /// Every sample lies in `[lo, hi]`.
    pub open spec fn in_range(self, lo: int, hi: int) -> bool {
        all_in_range(self.data@, lo, hi)
    }

    /// A fresh grid with every sample equal to `fill`.
    pub fn new(size: usize, fill: i64) -> (r: NoiseMap)
        requires
            size <= 0xffff,
        ensures
            r.wf(),
            r.size == size,
            r.data@.len() == size * size,
            forall|i: int| 0 <= i < r.data@.len() ==> r.data@[i] == fill,
    {
        proof {
            assert((size as int) * (size as int) <= 0xffff * 0xffff) by (nonlinear_arith)
                requires
                    0 <= size as int <= 0xffff,
            ;
        }
        let n: usize = size * size;
        let mut data: Vec<i64> = Vec::new();
        let mut i: usize = 0;
        while i < n
            invariant
                i <= n,
                data@.len() == i,
                forall|j: int| 0 <= j < i ==> data@[j] == fill,
            decreases n - i,
        {
            data.push(fill);
            i = i + 1;
        }
        NoiseMap { size, data }
    }

    /// Read the sample at `(x, y)`.
    pub fn get(&self, x: usize, y: usize) -> (r: i64)
        requires
            self.wf(),
            x < self.size,
            y < self.size,
        ensures
            r == self.at(x as int, y as int),
    {
        let n: usize = self.data.len();
        proof {
            lemma_grid_index(self.size as int, x as int, y as int);
        }
        self.data[x * self.size + y]
    }

    /// Write the sample at `(x, y)`.
    pub fn set(&mut self, x: usize, y: usize, v: i64)
        requires
            old(self).wf(),
            x < old(self).size,
            y < old(self).size,
        ensures
            final(self).wf(),
            final(self).size == old(self).size,
            final(self).data@ == old(self).data@.update(x as int * old(self).size + y as int, v),
            final(self).at(x as int, y as int) == v,
            final(self).total() == old(self).total() - old(self).at(x as int, y as int) + v,
    {
        let n: usize = self.data.len();
        proof {
            lemma_grid_index(self.size as int, x as int, y as int);
            lemma_sum_update(self.data@, x as int * self.size + y as int, v);
        }
        let i: usize = x * self.size + y;
        self.data.set(i, v);
    }
}

/// A row-major grid index stays inside the backing vector.
pub proof fn lemma_grid_index(size: int, x: int, y: int)
    requires
        0 <= x < size,
        0 <= y < size,
    ensures
        0 <= x * size + y < size * size,
{
    assert(x * size + size <= size * size) by (nonlinear_arith)
        requires
            0 <= x < size,
    ;
    assert(0 <= x * size) by (nonlinear_arith)
        requires
            0 <= x,
            0 <= size,
    ;
}

} // verus!

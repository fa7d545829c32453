//! Centering and rescaling of one cross-section.

use crate::math::least_squares::{centered, mean, squares_prefix, sum};
use crate::scalar::{copy_of, Scalar, INFINITY_BITS, NEGATIVE_INFINITY_BITS, TWO_BITS};
use vstd::prelude::*;

verus! {

/// Each entry of `a` over `divisor`.
pub open spec fn divided(a: Seq<Scalar>, divisor: Scalar) -> Seq<Scalar> {
    Seq::new(a.len(), |i: int| a[i].spec_div(divisor))
}

/// The sample standard deviation of `a`: the square root of the sum of its
/// squared deviations from its mean over one less than their number, and
/// zero where there are no two values.
pub open spec fn sample_std(a: Seq<Scalar>) -> Scalar {
    let n = Scalar::spec_from_count(a.len() as usize);
    if n.spec_le(Scalar::spec_one()) {
        Scalar::spec_zero()
    } else {
        squares_prefix(centered(a, mean(a)), a.len() as int).spec_div(
            n.spec_sub(Scalar::spec_one()),
        ).spec_sqrt()
    }
}

/// `data` less its mean, and over its standard deviation where that is
/// asked for and positive.
pub open spec fn center_applied(standardize: bool, data: Seq<Scalar>) -> Seq<Scalar> {
    if data.len() == 0 {
        data
    } else {
        let moved = centered(data, mean(data));
        if standardize && sample_std(moved).spec_gt(Scalar::spec_zero()) {
            divided(moved, sample_std(moved))
        } else {
            moved
        }
    }
}

/// The smallest of the first `n` entries of `a`, NaNs apart; positive
/// infinity where there is none.
pub open spec fn min_prefix(a: Seq<Scalar>, n: int) -> Scalar
    decreases n,
{
    if n <= 0 {
        Scalar { bits: INFINITY_BITS }
    } else {
        min_prefix(a, n - 1).spec_min(a[n - 1])
    }
}

/// The largest of the first `n` entries of `a`, NaNs apart; negative
/// infinity where there is none.
pub open spec fn max_prefix(a: Seq<Scalar>, n: int) -> Scalar
    decreases n,
{
    if n <= 0 {
        Scalar { bits: NEGATIVE_INFINITY_BITS }
    } else {
        max_prefix(a, n - 1).spec_max(a[n - 1])
    }
}

/// `data` mapped linearly so that its smallest value falls on `lower` and
/// its largest on `upper`; every entry the midpoint of the two where the
/// values do not spread.
pub open spec fn norm_applied(lower: Scalar, upper: Scalar, data: Seq<Scalar>) -> Seq<Scalar> {
    if data.len() == 0 {
        data
    } else {
        let low = min_prefix(data, data.len() as int);
        let high = max_prefix(data, data.len() as int);
        let range = high.spec_sub(low);
        if range.spec_gt(Scalar::spec_zero()) {
            Seq::new(
                data.len(),
                |i: int|
                    data[i].spec_sub(low).spec_div(range).spec_mul(
                        upper.spec_sub(lower),
                    ).spec_add(lower),
            )
        } else {
            Seq::new(
                data.len(),
                |i: int| lower.spec_add(upper).spec_div(Scalar { bits: TWO_BITS }),
            )
        }
    }
}

/// Each entry of `data` less `center`.
fn subtract(data: &Vec<Scalar>, center: Scalar) -> (out: Vec<Scalar>)
    ensures
        out@ == centered(data@, center),
{
    let mut out: Vec<Scalar> = Vec::new();
    let mut i: usize = 0;
    while i < data.len()
        invariant
            i <= data@.len(),
            out@.len() == i,
            forall|k: int| 0 <= k < i ==> (#[trigger] out@[k]) == data@[k].spec_sub(center),
        decreases data@.len() - i,
    {
        out.push(data[i].sub(center));
        i += 1;
    }
    assert(out@ =~= centered(data@, center));
    out
}

/// The mean of `data`.
fn mean_of(data: &Vec<Scalar>) -> (r: Scalar)
    ensures
        r == mean(data@),
{
    sum(data).div(Scalar::from_count(data.len()))
}

/// Centering of a cross-section about its mean.
#[derive(Debug, Clone, Copy)]
pub struct CenterXSection {
    /// Whether the centered values are also divided by their standard
    /// deviation.
    pub standardize: bool,
}

impl CenterXSection {
    /// A centering that standardizes or not.
    pub fn new(standardize: bool) -> (r: CenterXSection)
        ensures
            r.standardize == standardize,
    {
        CenterXSection { standardize }
    }

    /// Centers `data`.
    pub fn apply(&self, data: &Vec<Scalar>) -> (out: Vec<Scalar>)
        ensures
            out@ == center_applied(self.standardize, data@),
            out@.len() == data@.len(),
    {
        if data.len() == 0 {
            return copy_of(data);
        }
        let moved: Vec<Scalar> = subtract(data, mean_of(data));
        if self.standardize {
            let std: Scalar = self.compute_std(&moved);
            if std.gt(Scalar::zero()) {
                let mut out: Vec<Scalar> = Vec::new();
                let mut i: usize = 0;
                while i < moved.len()
                    invariant
                        i <= moved@.len(),
                        out@.len() == i,
                        forall|k: int| 0 <= k < i ==> (#[trigger] out@[k]) == moved@[k].spec_div(std),
                    decreases moved@.len() - i,
                {
                    out.push(moved[i].div(std));
                    i += 1;
                }
                assert(out@ =~= divided(moved@, std));
                out
            } else {
                moved
            }
        } else {
            moved
        }
    }

    /// The sample standard deviation of `data`.
    fn compute_std(&self, data: &Vec<Scalar>) -> (r: Scalar)
        ensures
            r == sample_std(data@),
    {
        let n: Scalar = Scalar::from_count(data.len());
        if n.le(Scalar::one()) {
            return Scalar::zero();
        }
        let moved: Vec<Scalar> = subtract(data, mean_of(data));
        let mut total: Scalar = Scalar::zero();
        let mut i: usize = 0;
        while i < moved.len()
            invariant
                i <= moved@.len(),
                total == squares_prefix(moved@, i as int),
            decreases moved@.len() - i,
        {
            total = total.add(moved[i].mul(moved[i]));
            i += 1;
        }
        total.div(n.sub(Scalar::one())).sqrt()
    }
}

impl Default for CenterXSection {
    fn default() -> (r: CenterXSection)
        ensures
            r.standardize,
    {
        CenterXSection::new(true)
    }
}

/// Rescaling of a cross-section to a range.
#[derive(Debug, Clone, Copy)]
pub struct NormXSection {
    /// Lower end of the range.
    pub lower: Scalar,
    /// Upper end of the range.
    pub upper: Scalar,
}

impl NormXSection {
    /// A rescaling to `[lower, upper]`.
    pub fn new(lower: Scalar, upper: Scalar) -> (r: NormXSection)
        ensures
            r.lower == lower,
            r.upper == upper,
    {
        NormXSection { lower, upper }
    }

    /// Rescales `data`.
    pub fn apply(&self, data: &Vec<Scalar>) -> (out: Vec<Scalar>)
        ensures
            out@ == norm_applied(self.lower, self.upper, data@),
            out@.len() == data@.len(),
    {
        let n: usize = data.len();
        if n == 0 {
            return copy_of(data);
        }
        let mut low: Scalar = Scalar::from_bits(INFINITY_BITS);
        let mut high: Scalar = Scalar::from_bits(NEGATIVE_INFINITY_BITS);
        let mut i: usize = 0;
        while i < n
            invariant
                n == data@.len(),
                i <= n,
                low == min_prefix(data@, i as int),
                high == max_prefix(data@, i as int),
            decreases n - i,
        {
            low = low.min(data[i]);
            high = high.max(data[i]);
            i += 1;
        }
        let range: Scalar = high.sub(low);
        let mut out: Vec<Scalar> = Vec::new();
        if range.gt(Scalar::zero()) {
            let width: Scalar = self.upper.sub(self.lower);
            let mut k: usize = 0;
            while k < n
                invariant
                    n == data@.len(),
                    k <= n,
                    out@.len() == k,
                    width == self.upper.spec_sub(self.lower),
                    forall|j: int|
                        0 <= j < k ==> (#[trigger] out@[j]) == data@[j].spec_sub(low).spec_div(
                            range,
                        ).spec_mul(width).spec_add(self.lower),
                decreases n - k,
            {
                out.push(data[k].sub(low).div(range).mul(width).add(self.lower));
                k += 1;
            }
            assert(out@ =~= norm_applied(self.lower, self.upper, data@));
        } else {
            let middle: Scalar = self.lower.add(self.upper).div(Scalar::from_bits(TWO_BITS));
            let mut k: usize = 0;
            while k < n
                invariant
                    k <= n,
                    out@.len() == k,
                    forall|j: int| 0 <= j < k ==> (#[trigger] out@[j]) == middle,
                decreases n - k,
            {
                out.push(middle);
                k += 1;
            }
            assert(out@ =~= norm_applied(self.lower, self.upper, data@));
        }
        out
    }
}

impl Default for NormXSection {
    fn default() -> (r: NormXSection)
        ensures
            r.lower == Scalar::spec_zero(),
            r.upper == Scalar::spec_one(),
    {
        NormXSection::new(Scalar::zero(), Scalar::one())
    }
}

} // verus!

//! Clipping of outliers to empirical quantile bounds.
//!
//! The finite values are ranked; the values at two ranks, fixed by the
//! percentile and by how many finite values there are, become the bounds, and
//! every finite value is moved into them. Values that are not finite take no
//! part and are left as they are.

use crate::math::error::MathError;
use crate::scalar::{copy_of, Scalar, INFINITY_BITS};
use vstd::prelude::*;
use vstd::relations::{sorted_by, total_ordering};
use vstd::seq_lib::{lemma_sorted_unique, to_multiset_build, to_multiset_insert, to_multiset_remove};

verus! {

/// Whether a percentile lies strictly between 0 and 0.5.
pub open spec fn percentile_is_valid(p: Scalar) -> bool {
    p.spec_gt(Scalar::spec_zero()) && p.spec_lt(Scalar::spec_half())
}

/// The places in the numeric order of the finite values among the first `n`
/// entries of `data`, in the order of the entries.
pub open spec fn finite_ranks(data: Seq<Scalar>, n: int) -> Seq<int>
    decreases n,
{
    if n <= 0 {
        Seq::empty()
    } else if data[n - 1].spec_is_finite() {
        finite_ranks(data, n - 1).push(data[n - 1].rank())
    } else {
        finite_ranks(data, n - 1)
    }
}

/// The index of the lower bound among `n >= 1` sorted values: the floor of
/// `n * p`, and the last index where that lies beyond it.
pub open spec fn lower_index(n: usize, p: Scalar) -> usize {
    let raw = Scalar::spec_from_count(n).spec_mul(p).spec_floor().spec_to_count();
    if raw > n - 1 {
        (n - 1) as usize
    } else {
        raw
    }
}

/// The index of the upper bound among `n >= 1` sorted values: the ceiling of
/// `n * (1 - p)` less one, kept between the lower index and the last index.
pub open spec fn upper_index(n: usize, p: Scalar) -> usize {
    let raw = Scalar::spec_from_count(n).spec_mul(
        Scalar::spec_one().spec_sub(p),
    ).spec_ceil().spec_to_count();
    let below = if raw == 0 {
        0usize
    } else {
        (raw - 1) as usize
    };
    let low = lower_index(n, p);
    if below < low {
        low
    } else if below > n - 1 {
        (n - 1) as usize
    } else {
        below
    }
}

/// The order of the integers.
pub open spec fn at_most() -> spec_fn(int, int) -> bool {
    |x: int, y: int| x <= y
}

/// The finite values of `data` by their places in the numeric order, sorted.
pub open spec fn sorted_ranks(data: Seq<Scalar>) -> Seq<int> {
    finite_ranks(data, data.len() as int).sort_by(at_most())
}

/// The place in the numeric order of the lower bound for `data`, which holds
/// a finite value.
pub open spec fn lower_rank(data: Seq<Scalar>, p: Scalar) -> int {
    let sorted = sorted_ranks(data);
    sorted[lower_index(sorted.len() as usize, p) as int]
}

/// The place in the numeric order of the upper bound for `data`, which holds
/// a finite value.
pub open spec fn upper_rank(data: Seq<Scalar>, p: Scalar) -> int {
    let sorted = sorted_ranks(data);
    sorted[upper_index(sorted.len() as usize, p) as int]
}

/// An integer moved into `[low, high]`.
pub open spec fn clipped_rank(r: int, low: int, high: int) -> int {
    if r < low {
        low
    } else if r > high {
        high
    } else {
        r
    }
}

/// A finite value moved into the bounds at places `low` and `high`; a value
/// that is not finite stays as it is.
pub open spec fn clipped(x: Scalar, low: int, high: int) -> Scalar {
    if !x.spec_is_finite() {
        x
    } else if x.rank() < low {
        Scalar::from_rank(low)
    } else if x.rank() > high {
        Scalar::from_rank(high)
    } else {
        x
    }
}

/// `data` with its finite values clipped to the bounds that the percentile
/// `p` gives; `data` itself where it holds no finite value.
pub open spec fn winsorized(data: Seq<Scalar>, p: Scalar) -> Seq<Scalar> {
    if finite_ranks(data, data.len() as int).len() == 0 {
        data
    } else {
        Seq::new(data.len(), |i: int| clipped(data[i], lower_rank(data, p), upper_rank(data, p)))
    }
}

/// The entries of `s` as integers.
pub open spec fn widened(s: Seq<i64>) -> Seq<int> {
    Seq::new(s.len(), |i: int| s[i] as int)
}

/// Whether every entry is the place of some finite value.
pub open spec fn all_finite_ranks(s: Seq<int>) -> bool {
    forall|i: int| 0 <= i < s.len() ==> -INFINITY_BITS < #[trigger] s[i] < INFINITY_BITS
}

/// There are at most as many finite values as values, and each has the
/// place of a finite value.
proof fn lemma_finite_ranks(data: Seq<Scalar>, n: int)
    ensures
        finite_ranks(data, n).len() <= if n <= 0 {
            0
        } else {
            n
        },
        all_finite_ranks(finite_ranks(data, n)),
    decreases n,
{
    if n > 0 {
        lemma_finite_ranks(data, n - 1);
    }
}

/// The order of the integers is total.
proof fn lemma_at_most_is_total()
    ensures
        total_ordering(at_most()),
{
    let leq = at_most();
    assert(vstd::relations::reflexive(leq));
    assert(vstd::relations::antisymmetric(leq));
    assert(vstd::relations::transitive(leq));
    assert(vstd::relations::strongly_connected(leq));
}

/// Sorting keeps the length and the entries, and puts them in order.
proof fn lemma_sorted(s: Seq<int>)
    ensures
        s.sort_by(at_most()).len() == s.len(),
        s.sort_by(at_most()).to_multiset() == s.to_multiset(),
        sorted_by(s.sort_by(at_most()), at_most()),
        forall|i: int, j: int|
            0 <= i <= j < s.len() ==> s.sort_by(at_most())[i] <= s.sort_by(at_most())[j],
        all_finite_ranks(s) ==> all_finite_ranks(s.sort_by(at_most())),
{
    broadcast use vstd::seq_lib::group_to_multiset_ensures;

    lemma_at_most_is_total();
    s.lemma_sort_by_ensures(at_most());
    let t = s.sort_by(at_most());
    assert(t.to_multiset() == s.to_multiset());
    assert(t.len() == s.len()) by {
        vstd::seq_lib::to_multiset_len(t);
        vstd::seq_lib::to_multiset_len(s);
    }
    assert forall|i: int, j: int| 0 <= i <= j < s.len() implies t[i] <= t[j] by {
        if i < j {
            assert(at_most()(t[i], t[j]));
        }
    }
    if all_finite_ranks(s) {
        assert forall|i: int| 0 <= i < t.len() implies -INFINITY_BITS < #[trigger] t[i]
            < INFINITY_BITS by {
            assert(t.to_multiset().contains(t[i]));
            assert(s.to_multiset().contains(t[i]));
            assert(s.contains(t[i]));
            let k = choose|k: int| 0 <= k < s.len() && s[k] == t[i];
            assert(-INFINITY_BITS < s[k] < INFINITY_BITS);
        }
    }
}

/// The lower index does not exceed the upper index, and both are indices.
proof fn lemma_indices_in_order(n: usize, p: Scalar)
    requires
        n >= 1,
    ensures
        lower_index(n, p) <= upper_index(n, p) < n,
{
}

/// The bounds are in order and hold finite values, wherever `data` holds a
/// finite value.
pub proof fn lemma_bounds_in_order(data: Seq<Scalar>, p: Scalar)
    requires
        finite_ranks(data, data.len() as int).len() > 0,
        data.len() <= usize::MAX,
    ensures
        lower_rank(data, p) <= upper_rank(data, p),
        -INFINITY_BITS < lower_rank(data, p) < INFINITY_BITS,
        -INFINITY_BITS < upper_rank(data, p) < INFINITY_BITS,
{
    let ranks = finite_ranks(data, data.len() as int);
    lemma_finite_ranks(data, data.len() as int);
    lemma_sorted(ranks);
    let n = ranks.len() as usize;
    lemma_indices_in_order(n, p);
    let sorted = sorted_ranks(data);
    assert(-INFINITY_BITS < sorted[lower_index(n, p) as int] < INFINITY_BITS);
    assert(-INFINITY_BITS < sorted[upper_index(n, p) as int] < INFINITY_BITS);
}

/// Every finite value comes out within the bounds, and every value that is
/// not finite, a NaN among them, comes out as it went in.
pub proof fn lemma_winsorized_within_bounds(data: Seq<Scalar>, p: Scalar, i: int)
    requires
        0 <= i < data.len(),
        data.len() <= usize::MAX,
    ensures
        winsorized(data, p).len() == data.len(),
        !data[i].spec_is_finite() ==> winsorized(data, p)[i] == data[i],
        data[i].spec_is_finite() && lower_rank(data, p) <= data[i].rank() <= upper_rank(data, p)
            ==> winsorized(data, p)[i] == data[i],
        data[i].spec_is_finite() ==> {
            &&& winsorized(data, p)[i].spec_is_finite()
            &&& lower_rank(data, p) <= winsorized(data, p)[i].rank() <= upper_rank(data, p)
            &&& Scalar::from_rank(lower_rank(data, p)).spec_le(winsorized(data, p)[i])
            &&& winsorized(data, p)[i].spec_le(Scalar::from_rank(upper_rank(data, p)))
        },
{
    if data[i].spec_is_finite() {
        lemma_has_finite(data, data.len() as int, i);
        lemma_bounds_in_order(data, p);
    }
}

/// A finite value among the first `n` entries leaves a rank.
proof fn lemma_has_finite(data: Seq<Scalar>, n: int, i: int)
    requires
        0 <= i < n,
        data[i].spec_is_finite(),
    ensures
        finite_ranks(data, n).len() > 0,
    decreases n,
{
    if i < n - 1 {
        lemma_has_finite(data, n - 1, i);
    }
}

/// Two sequences with the same entries, in whatever order, have the same
/// entries after one function is applied to them all.
proof fn lemma_map_keeps_multiset<A, B>(a: Seq<A>, b: Seq<A>, f: spec_fn(A) -> B)
    requires
        a.to_multiset() == b.to_multiset(),
    ensures
        a.map_values(f).to_multiset() == b.map_values(f).to_multiset(),
    decreases a.len(),
{
    broadcast use vstd::seq_lib::group_to_multiset_ensures;

    vstd::seq_lib::to_multiset_len(a);
    vstd::seq_lib::to_multiset_len(b);
    if a.len() == 0 {
        assert(a.map_values(f) =~= b.map_values(f));
    } else {
        let x = a.last();
        let a1 = a.drop_last();
        assert(a =~= a1.push(x));
        to_multiset_build(a1, x);
        assert(a.to_multiset().contains(x));
        assert(b.to_multiset().contains(x));
        assert(b.contains(x));
        let i = choose|i: int| 0 <= i < b.len() && b[i] == x;
        let b1 = b.remove(i);
        to_multiset_remove(b, i);
        assert(a1.to_multiset() =~= a.to_multiset().remove(x));
        assert(a1.to_multiset() == b1.to_multiset());
        lemma_map_keeps_multiset(a1, b1, f);
        assert(a.map_values(f) =~= a1.map_values(f).push(f(x)));
        to_multiset_build(a1.map_values(f), f(x));
        assert(b.map_values(f) =~= b1.map_values(f).insert(i, f(x)));
        to_multiset_insert(b1.map_values(f), i, f(x));
    }
}

/// Clipping the values clips their ranks, one by one.
proof fn lemma_finite_ranks_of_clipped(data: Seq<Scalar>, out: Seq<Scalar>, low: int, high: int, n: int)
    requires
        n <= data.len(),
        out.len() == data.len(),
        -INFINITY_BITS < low <= high < INFINITY_BITS,
        forall|i: int| 0 <= i < data.len() ==> out[i] == clipped(#[trigger] data[i], low, high),
    ensures
        finite_ranks(out, n) == finite_ranks(data, n).map_values(
            |r: int| clipped_rank(r, low, high),
        ),
    decreases n,
{
    let f = |r: int| clipped_rank(r, low, high);
    if n <= 0 {
        assert(finite_ranks(out, n) =~= finite_ranks(data, n).map_values(f));
    } else {
        lemma_finite_ranks_of_clipped(data, out, low, high, n - 1);
        assert(out[n - 1] == clipped(data[n - 1], low, high));
        if data[n - 1].spec_is_finite() {
            assert(out[n - 1].rank() == f(data[n - 1].rank()));
            assert(finite_ranks(data, n - 1).push(data[n - 1].rank()).map_values(f)
                =~= finite_ranks(data, n - 1).map_values(f).push(f(data[n - 1].rank())));
        }
    }
}

/// Winsorizing what has been winsorized at the same percentile changes
/// nothing.
pub proof fn lemma_winsorize_idempotent(data: Seq<Scalar>, p: Scalar)
    requires
        data.len() <= usize::MAX,
    ensures
        winsorized(winsorized(data, p), p) == winsorized(data, p),
{
    let n = data.len() as int;
    let ranks = finite_ranks(data, n);
    if ranks.len() > 0 {
        let out = winsorized(data, p);
        let low = lower_rank(data, p);
        let high = upper_rank(data, p);
        let f = |r: int| clipped_rank(r, low, high);
        lemma_bounds_in_order(data, p);
        lemma_finite_ranks(data, n);
        lemma_finite_ranks_of_clipped(data, out, low, high, n);
        let ranks2 = finite_ranks(out, n);
        assert(ranks2 == ranks.map_values(f));
        let sorted = ranks.sort_by(at_most());
        let sorted2 = ranks2.sort_by(at_most());
        lemma_sorted(ranks);
        lemma_sorted(ranks2);
        lemma_map_keeps_multiset(sorted, ranks, f);
        let mapped = sorted.map_values(f);
        assert(sorted_by(mapped, at_most())) by {
            assert forall|i: int, j: int| 0 <= i < j < mapped.len() implies #[trigger] at_most()(
                mapped[i],
                mapped[j],
            ) by {
                assert(sorted[i] <= sorted[j]);
            }
        }
        lemma_at_most_is_total();
        lemma_sorted_unique(sorted2, mapped, at_most());
        assert(sorted2 == mapped);
        let count = ranks.len() as usize;
        lemma_indices_in_order(count, p);
        assert(lower_rank(out, p) == low);
        assert(upper_rank(out, p) == high);
        assert(winsorized(out, p) =~= out);
    } else {
        assert(winsorized(data, p) == data);
    }
}

/// Calls `sort_unstable` of slices on a vector of integers. The contract
/// states what the documentation of that method promises: the slice ends up
/// in ascending order, holding the values it held.
#[verifier::external_body]
fn sort_ascending(v: &mut Vec<i64>)
    ensures
        final(v)@.to_multiset() == old(v)@.to_multiset(),
        forall|i: int, j: int| 0 <= i < j < final(v)@.len() ==> final(v)@[i] <= final(v)@[j],
{
    v.sort_unstable();
}

/// Collects the places in the numeric order of the finite values of `data`.
fn collect_finite_ranks(data: &Vec<Scalar>) -> (ranks: Vec<i64>)
    ensures
        widened(ranks@) == finite_ranks(data@, data@.len() as int),
{
    let mut ranks: Vec<i64> = Vec::new();
    let mut i: usize = 0;
    assert(widened(ranks@) =~= finite_ranks(data@, 0));
    while i < data.len()
        invariant
            i <= data@.len(),
            widened(ranks@) == finite_ranks(data@, i as int),
        decreases data@.len() - i,
    {
        let x: Scalar = data[i];
        if x.is_finite() {
            let ghost before = ranks@;
            ranks.push(x.finite_rank());
            assert(widened(ranks@) =~= widened(before).push(x.rank()));
        }
        i += 1;
    }
    ranks
}

/// The index of the lower bound among `n` sorted values.
fn lower_index_of(n: usize, p: Scalar) -> (r: usize)
    requires
        n >= 1,
    ensures
        r == lower_index(n, p),
{
    let raw: usize = Scalar::from_count(n).mul(p).floor().to_count();
    if raw > n - 1 {
        n - 1
    } else {
        raw
    }
}

/// The index of the upper bound among `n` sorted values.
fn upper_index_of(n: usize, p: Scalar) -> (r: usize)
    requires
        n >= 1,
    ensures
        r == upper_index(n, p),
{
    let raw: usize = Scalar::from_count(n).mul(Scalar::one().sub(p)).ceil().to_count();
    let below: usize = if raw == 0 {
        0
    } else {
        raw - 1
    };
    let low: usize = lower_index_of(n, p);
    if below < low {
        low
    } else if below > n - 1 {
        n - 1
    } else {
        below
    }
}

/// Clips `data` to its empirical `[p, 1 - p]` quantile bounds. The bounds are
/// taken among the finite values; values that are not finite are left as
/// they are. Fails where `p` is not strictly between 0 and 0.5.
pub fn winsorize(data: &Vec<Scalar>, percentile: Scalar) -> (r: Result<Vec<Scalar>, MathError>)
    ensures
        match r {
            Ok(out) => percentile_is_valid(percentile) && out@ == winsorized(data@, percentile),
            Err(e) => !percentile_is_valid(percentile) && e == MathError::InvalidPercentile(
                percentile,
            ),
        },
        r matches Ok(out) ==> out@.len() == data@.len(),
{
    if !(percentile.gt(Scalar::zero()) && percentile.lt(Scalar::half())) {
        return Err(MathError::InvalidPercentile(percentile));
    }
    let mut ranks: Vec<i64> = collect_finite_ranks(data);
    let ghost unsorted = finite_ranks(data@, data@.len() as int);
    let count: usize = ranks.len();
    if count == 0 {
        return Ok(copy_of(data));
    }
    let ghost before = ranks@;
    let total: usize = data.len();
    sort_ascending(&mut ranks);
    proof {
        lemma_finite_ranks(data@, data@.len() as int);
        lemma_sorted(unsorted);
        lemma_at_most_is_total();
        let sorted = widened(ranks@);
        lemma_map_keeps_multiset(ranks@, before, |r: i64| r as int);
        assert(widened(ranks@) =~= ranks@.map_values(|r: i64| r as int));
        assert(widened(before) =~= before.map_values(|r: i64| r as int));
        assert(sorted_by(sorted, at_most())) by {
            assert forall|i: int, j: int| 0 <= i < j < sorted.len() implies #[trigger] at_most()(
                sorted[i],
                sorted[j],
            ) by {
                assert(ranks@[i] <= ranks@[j]);
            }
        }
        lemma_sorted_unique(sorted, unsorted.sort_by(at_most()), at_most());
        assert(sorted == sorted_ranks(data@));
        lemma_indices_in_order(count, percentile);
        lemma_bounds_in_order(data@, percentile);
    }
    let low: i64 = ranks[lower_index_of(count, percentile)];
    let high: i64 = ranks[upper_index_of(count, percentile)];
    assert(low == lower_rank(data@, percentile));
    assert(high == upper_rank(data@, percentile));
    let mut out: Vec<Scalar> = Vec::new();
    let mut i: usize = 0;
    while i < data.len()
        invariant
            i <= data@.len(),
            out@.len() == i,
            -INFINITY_BITS < low <= high < INFINITY_BITS,
            forall|k: int| 0 <= k < i ==> (#[trigger] out@[k]) == clipped(data@[k], low as int, high as int),
        decreases data@.len() - i,
    {
        let x: Scalar = data[i];
        let y: Scalar = if !x.is_finite() {
            x
        } else if x.finite_rank() < low {
            Scalar::from_finite_rank(low)
        } else if x.finite_rank() > high {
            Scalar::from_finite_rank(high)
        } else {
            x
        };
        out.push(y);
        i += 1;
    }
    assert(out@ =~= winsorized(data@, percentile));
    Ok(out)
}

/// A winsorization with its percentile fixed.
#[derive(Debug, Clone, Copy)]
pub struct Winsorizer {
    percentile: Scalar,
}

impl Winsorizer {
    #[verifier::type_invariant]
    spec fn well_formed(self) -> bool {
        percentile_is_valid(self.percentile)
    }

    /// The percentile that the winsorizer clips at.
    pub closed spec fn spec_percentile(&self) -> Scalar {
        self.percentile
    }

    /// A winsorizer for the given percentile, which has to lie strictly
    /// between 0 and 0.5.
    pub fn new(percentile: Scalar) -> (r: Result<Winsorizer, MathError>)
        ensures
            match r {
                Ok(w) => percentile_is_valid(percentile) && w.spec_percentile() == percentile,
                Err(e) => !percentile_is_valid(percentile) && e == MathError::InvalidPercentile(
                    percentile,
                ),
            },
    {
        if !(percentile.gt(Scalar::zero()) && percentile.lt(Scalar::half())) {
            return Err(MathError::InvalidPercentile(percentile));
        }
        Ok(Winsorizer { percentile })
    }

    /// The percentile, which lies strictly between 0 and 0.5.
    pub fn percentile(&self) -> (p: Scalar)
        ensures
            p == self.spec_percentile(),
            percentile_is_valid(p),
    {
        proof {
            use_type_invariant(self);
        }
        self.percentile
    }

    /// Clips `data` at the winsorizer's percentile. This never fails.
    pub fn apply(&self, data: &Vec<Scalar>) -> (r: Result<Vec<Scalar>, MathError>)
        ensures
            r matches Ok(out) && out@ == winsorized(data@, self.spec_percentile()),
    {
        proof {
            use_type_invariant(self);
        }
        winsorize(data, self.percentile)
    }
}

} // verus!

//! Weights for the regression.

use crate::math::least_squares::{sum, sum_prefix};
use crate::scalar::Scalar;
use vstd::prelude::*;

verus! {

/// The weights of the regression: the square roots of the raw weights,
/// negative raw weights counting as zero.
pub open spec fn regression_weights(raw: Seq<Scalar>) -> Seq<Scalar> {
    Seq::new(raw.len(), |i: int| raw[i].spec_max(Scalar::spec_zero()).spec_sqrt())
}

/// A raw weight floored at zero is not negative, whatever the raw weight.
pub proof fn lemma_floored_weight_is_not_negative(raw: Scalar)
    ensures
        !raw.spec_max(Scalar::spec_zero()).spec_lt(Scalar::spec_zero()),
        !raw.spec_max(Scalar::spec_zero()).spec_is_nan(),
{
}

/// The square roots of the raw weights, negative ones counting as zero.
pub fn transform_weights(raw: &Vec<Scalar>) -> (w: Vec<Scalar>)
    ensures
        w@ == regression_weights(raw@),
{
    let mut out: Vec<Scalar> = Vec::new();
    let mut i: usize = 0;
    while i < raw.len()
        invariant
            i <= raw@.len(),
            out@.len() == i,
            forall|k: int|
                0 <= k < i ==> (#[trigger] out@[k]) == raw@[k].spec_max(
                    Scalar::spec_zero(),
                ).spec_sqrt(),
        decreases raw@.len() - i,
    {
        out.push(raw[i].max(Scalar::zero()).sqrt());
        i += 1;
    }
    assert(out@ =~= regression_weights(raw@));
    out
}

/// The powers `decay^0, decay^1, ..` for a window of the given length.
pub open spec fn decay_powers(window: nat, decay: Scalar) -> Seq<Scalar> {
    Seq::new(window, |i: int| decay.spec_powi(i as i32))
}

/// Exponentially decaying weights, the most recent first: the powers of
/// `decay` over their sum where that is positive, and as they are where it
/// is not.
pub open spec fn exponential_weights(window: nat, decay: Scalar) -> Seq<Scalar> {
    let raw = decay_powers(window, decay);
    let total = sum_prefix(raw, window as int);
    if total.spec_gt(Scalar::spec_zero()) {
        Seq::new(window, |i: int| raw[i].spec_div(total))
    } else {
        raw
    }
}

/// Exponentially decaying weights for a window of `window` periods and a
/// half-life of `half_life` periods, the most recent first: zeros where the
/// window or the half-life is zero, the normalized powers of the decay
/// otherwise.
pub open spec fn exp_weights_of(window: nat, half_life: nat, decay: Scalar) -> Seq<Scalar> {
    if window == 0 || half_life == 0 {
        Seq::new(window, |i: int| Scalar::spec_zero())
    } else {
        exponential_weights(window, decay)
    }
}

/// Exponentially decaying weights for a window of `window` periods and a
/// half-life of `half_life` periods, the most recent first. `decay` is the
/// decay per period, which for a half-life of `h` periods is the `h`-th root
/// of one half. The weights sum to one up to rounding; with a window or a
/// half-life of zero they are all zero.
pub fn exp_weights(window: usize, half_life: usize, decay: Scalar) -> (weights: Vec<Scalar>)
    requires
        window <= i32::MAX,
    ensures
        weights@ == exp_weights_of(window as nat, half_life as nat, decay),
        weights@.len() == window,
{
    if window == 0 || half_life == 0 {
        let mut zeros: Vec<Scalar> = Vec::new();
        let mut i: usize = 0;
        while i < window
            invariant
                i <= window,
                zeros@.len() == i,
                forall|k: int| 0 <= k < i ==> (#[trigger] zeros@[k]) == Scalar::spec_zero(),
            decreases window - i,
        {
            zeros.push(Scalar::zero());
            i += 1;
        }
        assert(zeros@ =~= exp_weights_of(window as nat, half_life as nat, decay));
        return zeros;
    }
    let mut raw: Vec<Scalar> = Vec::new();
    let mut i: usize = 0;
    while i < window
        invariant
            window <= i32::MAX,
            i <= window,
            raw@.len() == i,
            forall|k: int| 0 <= k < i ==> (#[trigger] raw@[k]) == decay.spec_powi(k as i32),
        decreases window - i,
    {
        raw.push(decay.powi(i as i32));
        i += 1;
    }
    assert(raw@ =~= decay_powers(window as nat, decay));
    let total: Scalar = sum(&raw);
    if total.gt(Scalar::zero()) {
        let mut weights: Vec<Scalar> = Vec::new();
        let mut k: usize = 0;
        while k < window
            invariant
                window == raw@.len(),
                k <= window,
                weights@.len() == k,
                forall|j: int| 0 <= j < k ==> (#[trigger] weights@[j]) == raw@[j].spec_div(total),
            decreases window - k,
        {
            weights.push(raw[k].div(total));
            k += 1;
        }
        assert(weights@ =~= exponential_weights(window as nat, decay));
        weights
    } else {
        raw
    }
}

} // verus!

//! Weights of assets.

use crate::math::least_squares::{sum, sum_prefix};
use crate::math::weights::{exp_weights, exp_weights_of, regression_weights, transform_weights};
use crate::scalar::{copy_of, Scalar};
use vstd::prelude::*;

verus! {

/// The raw weights over their sum where that is positive, and as they are
/// where it is not.
pub open spec fn normalized_weights(raw: Seq<Scalar>) -> Seq<Scalar> {
    let total = sum_prefix(raw, raw.len() as int);
    if total.spec_gt(Scalar::spec_zero()) {
        Seq::new(raw.len(), |i: int| raw[i].spec_div(total))
    } else {
        raw
    }
}

/// Weights by market capitalization.
#[derive(Debug)]
pub struct MarketCapWeights {
    raw: Vec<Scalar>,
    normalized: Vec<Scalar>,
    sqrt_weights: Vec<Scalar>,
}

impl Clone for MarketCapWeights {
    fn clone(&self) -> (r: MarketCapWeights)
        ensures
            r.spec_raw() == self.spec_raw(),
    {
        proof {
            use_type_invariant(self);
        }
        MarketCapWeights {
            raw: copy_of(&self.raw),
            normalized: copy_of(&self.normalized),
            sqrt_weights: copy_of(&self.sqrt_weights),
        }
    }
}

impl MarketCapWeights {
    #[verifier::type_invariant]
    spec fn well_formed(self) -> bool {
        &&& self.normalized@ == normalized_weights(self.raw@)
        &&& self.sqrt_weights@ == regression_weights(self.raw@)
    }

    /// The raw market capitalizations, as a sequence.
    pub closed spec fn spec_raw(&self) -> Seq<Scalar> {
        self.raw@
    }

    /// The weights from raw market capitalizations.
    pub fn from_raw(raw: Vec<Scalar>) -> (r: MarketCapWeights)
        ensures
            r.spec_raw() == raw@,
    {
        let total: Scalar = sum(&raw);
        let mut normalized: Vec<Scalar> = Vec::new();
        let mut i: usize = 0;
        if total.gt(Scalar::zero()) {
            while i < raw.len()
                invariant
                    i <= raw@.len(),
                    normalized@.len() == i,
                    forall|k: int| 0 <= k < i ==> (#[trigger] normalized@[k]) == raw@[k].spec_div(total),
                decreases raw@.len() - i,
            {
                normalized.push(raw[i].div(total));
                i += 1;
            }
        } else {
            normalized = copy_of(&raw);
        }
        assert(normalized@ =~= normalized_weights(raw@));
        let sqrt_weights: Vec<Scalar> = transform_weights(&raw);
        MarketCapWeights { raw, normalized, sqrt_weights }
    }

    /// The raw market capitalizations.
    pub fn raw(&self) -> (r: &Vec<Scalar>)
        ensures
            r@ == self.spec_raw(),
    {
        &self.raw
    }

    /// The raw weights over their sum; they sum to one up to rounding.
    pub fn normalized(&self) -> (r: &Vec<Scalar>)
        ensures
            r@ == normalized_weights(self.spec_raw()),
    {
        proof {
            use_type_invariant(self);
        }
        &self.normalized
    }

    /// The square roots of the raw weights, negative ones counting as zero,
    /// as the regression takes them.
    pub fn sqrt_weights(&self) -> (r: &Vec<Scalar>)
        ensures
            r@ == regression_weights(self.spec_raw()),
    {
        proof {
            use_type_invariant(self);
        }
        &self.sqrt_weights
    }

    /// The number of assets.
    pub fn len(&self) -> (n: usize)
        ensures
            n == self.spec_raw().len(),
    {
        self.raw.len()
    }

    /// Whether there is no asset.
    pub fn is_empty(&self) -> (r: bool)
        ensures
            r == (self.spec_raw().len() == 0),
    {
        self.raw.len() == 0
    }
}

/// Exponentially decaying weights for a time series.
#[derive(Debug)]
pub struct ExponentialWeights {
    window: usize,
    half_life: usize,
    weights: Vec<Scalar>,
}

impl Clone for ExponentialWeights {
    fn clone(&self) -> (r: ExponentialWeights)
        ensures
            r.spec_window() == self.spec_window(),
            r.spec_half_life() == self.spec_half_life(),
            r.spec_weights() == self.spec_weights(),
    {
        proof {
            use_type_invariant(self);
        }
        ExponentialWeights {
            window: self.window,
            half_life: self.half_life,
            weights: copy_of(&self.weights),
        }
    }
}

impl ExponentialWeights {
    #[verifier::type_invariant]
    spec fn well_formed(self) -> bool {
        self.weights@.len() == self.window
    }

    /// The length of the window.
    pub closed spec fn spec_window(&self) -> usize {
        self.window
    }

    /// The half-life in periods.
    pub closed spec fn spec_half_life(&self) -> usize {
        self.half_life
    }

    /// The weights, the most recent first, as a sequence.
    pub closed spec fn spec_weights(&self) -> Seq<Scalar> {
        self.weights@
    }

    /// The weights for a window of `window` periods and a half-life of
    /// `half_life` periods. `decay` is the decay per period, which for a
    /// half-life of `h` periods is the `h`-th root of one half.
    pub fn new(window: usize, half_life: usize, decay: Scalar) -> (r: ExponentialWeights)
        requires
            window <= i32::MAX,
        ensures
            r.spec_window() == window,
            r.spec_half_life() == half_life,
            r.spec_weights() == exp_weights_of(window as nat, half_life as nat, decay),
    {
        let weights: Vec<Scalar> = exp_weights(window, half_life, decay);
        ExponentialWeights { window, half_life, weights }
    }

    /// The weights, the most recent first.
    pub fn weights(&self) -> (r: &Vec<Scalar>)
        ensures
            r@ == self.spec_weights(),
            r@.len() == self.spec_window(),
    {
        proof {
            use_type_invariant(self);
        }
        &self.weights
    }

    /// A copy of the weights, the most recent first.
    pub fn to_array(&self) -> (r: Vec<Scalar>)
        ensures
            r@ == self.spec_weights(),
    {
        copy_of(&self.weights)
    }

    /// The length of the window.
    pub fn window(&self) -> (r: usize)
        ensures
            r == self.spec_window(),
    {
        self.window
    }

    /// The half-life in periods.
    pub fn half_life(&self) -> (r: usize)
        ensures
            r == self.spec_half_life(),
    {
        self.half_life
    }

    /// The weight at the given lag, if the window reaches that far.
    pub fn at(&self, lag: usize) -> (r: Option<Scalar>)
        ensures
            r == if lag < self.spec_weights().len() {
                Some(self.spec_weights()[lag as int])
            } else {
                None
            },
    {
        if lag < self.weights.len() {
            Some(self.weights[lag])
        } else {
            None
        }
    }
}

} // verus!

//! The momentum style factor.

use crate::scalar::Scalar;
use crate::traits::factor::{FactorKind, StyleFactor};
use vstd::prelude::*;

verus! {

/// Bit pattern of `0.01`, the percentile at which style features are
/// winsorized by default.
pub const FEATURE_WINSOR_BITS: u64 = 0x3f84_7ae1_47ae_147b;

/// Configuration of the momentum factor.
#[derive(Debug, Clone, Copy)]
pub struct MomentumConfig {
    /// Look-back period in trading days.
    pub trailing_days: usize,
    /// Half-life of the exponential weighting, in trading days.
    pub half_life: usize,
    /// Most recent days left out, to avoid short-term reversal.
    pub lag: usize,
    /// Winsorization percentile.
    pub winsor_factor: Scalar,
}

impl Default for MomentumConfig {
    fn default() -> (r: MomentumConfig)
        ensures
            r.trailing_days == 504,
            r.half_life == 126,
            r.lag == 20,
            r.winsor_factor == (Scalar { bits: FEATURE_WINSOR_BITS }),
    {
        MomentumConfig {
            trailing_days: 504,
            half_life: 126,
            lag: 20,
            winsor_factor: Scalar::from_bits(FEATURE_WINSOR_BITS),
        }
    }
}

/// The momentum style factor: cumulative lagged return over a trailing
/// window.
#[derive(Debug, Clone, Copy)]
pub struct MomentumFactor {
    config: MomentumConfig,
}

impl MomentumFactor {
    /// The factor's configuration.
    pub closed spec fn spec_config(&self) -> MomentumConfig {
        self.config
    }

    /// The factor with the default configuration.
    pub fn new() -> (r: MomentumFactor)
        ensures
            r.spec_config().trailing_days == 504,
            r.spec_config().half_life == 126,
            r.spec_config().lag == 20,
            r.spec_config().winsor_factor == (Scalar { bits: FEATURE_WINSOR_BITS }),
    {
        MomentumFactor { config: MomentumConfig::default() }
    }

    /// The factor with the given configuration.
    pub fn with_config(config: MomentumConfig) -> (r: MomentumFactor)
        ensures
            r.spec_config() == config,
    {
        MomentumFactor { config }
    }

    /// The factor's configuration.
    pub fn config(&self) -> (r: &MomentumConfig)
        ensures
            *r == self.spec_config(),
    {
        &self.config
    }

    /// The factor's name.
    pub fn name(&self) -> (r: &'static str)
        ensures
            r@ == "momentum"@,
    {
        "momentum"
    }

    /// The columns that the factor reads.
    pub fn required_columns(&self) -> (r: Vec<&'static str>)
        ensures
            r@.len() == 3,
            r@[0]@ == "date"@,
            r@[1]@ == "symbol"@,
            r@[2]@ == "asset_returns"@,
    {
        let mut columns: Vec<&'static str> = Vec::new();
        columns.push("date");
        columns.push("symbol");
        columns.push("asset_returns");
        columns
    }
}

impl Default for MomentumFactor {
    fn default() -> (r: MomentumFactor)
        ensures
            r.spec_config().trailing_days == 504,
    {
        MomentumFactor::new()
    }
}

impl StyleFactor for MomentumFactor {
    fn kind(&self) -> (r: FactorKind) {
        FactorKind::Style
    }

    fn residualize(&self) -> (r: bool)
        ensures
            r,
    {
        true
    }
}

} // verus!

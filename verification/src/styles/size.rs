//! The size style factor.

use crate::scalar::Scalar;
use crate::traits::factor::{FactorKind, StyleFactor};
use vstd::prelude::*;

verus! {

/// Bit pattern of `0.2`, the default lower decile.
pub const LOWER_DECILE_BITS: u64 = 0x3fc9_9999_9999_999a;

/// Bit pattern of `0.8`, the default upper decile.
pub const UPPER_DECILE_BITS: u64 = 0x3fe9_9999_9999_999a;

/// Configuration of the size factor.
#[derive(Debug, Clone, Copy)]
pub struct SizeConfig {
    /// Decile under which an asset counts as small.
    pub lower_decile: Scalar,
    /// Decile over which an asset counts as large.
    pub upper_decile: Scalar,
}

impl Default for SizeConfig {
    fn default() -> (r: SizeConfig)
        ensures
            r.lower_decile == (Scalar { bits: LOWER_DECILE_BITS }),
            r.upper_decile == (Scalar { bits: UPPER_DECILE_BITS }),
    {
        SizeConfig {
            lower_decile: Scalar::from_bits(LOWER_DECILE_BITS),
            upper_decile: Scalar::from_bits(UPPER_DECILE_BITS),
        }
    }
}

/// The size style factor: small capitalizations score high, large ones low.
#[derive(Debug, Clone, Copy)]
pub struct SizeFactor {
    config: SizeConfig,
}

impl SizeFactor {
    /// The factor's configuration.
    pub closed spec fn spec_config(&self) -> SizeConfig {
        self.config
    }

    /// The factor with the default configuration.
    pub fn new() -> (r: SizeFactor)
        ensures
            r.spec_config().lower_decile == (Scalar { bits: LOWER_DECILE_BITS }),
            r.spec_config().upper_decile == (Scalar { bits: UPPER_DECILE_BITS }),
    {
        SizeFactor { config: SizeConfig::default() }
    }

    /// The factor with the given configuration.
    pub fn with_config(config: SizeConfig) -> (r: SizeFactor)
        ensures
            r.spec_config() == config,
    {
        SizeFactor { config }
    }

    /// The factor's configuration.
    pub fn config(&self) -> (r: &SizeConfig)
        ensures
            *r == self.spec_config(),
    {
        &self.config
    }

    /// The factor's name.
    pub fn name(&self) -> (r: &'static str)
        ensures
            r@ == "size"@,
    {
        "size"
    }

    /// The columns that the factor reads.
    pub fn required_columns(&self) -> (r: Vec<&'static str>)
        ensures
            r@.len() == 3,
            r@[0]@ == "date"@,
            r@[1]@ == "symbol"@,
            r@[2]@ == "market_cap"@,
    {
        let mut columns: Vec<&'static str> = Vec::new();
        columns.push("date");
        columns.push("symbol");
        columns.push("market_cap");
        columns
    }
}

impl Default for SizeFactor {
    fn default() -> (r: SizeFactor)
        ensures
            r.spec_config().lower_decile == (Scalar { bits: LOWER_DECILE_BITS }),
    {
        SizeFactor::new()
    }
}

impl StyleFactor for SizeFactor {
    fn kind(&self) -> (r: FactorKind) {
        FactorKind::Style
    }

    fn residualize(&self) -> (r: bool)
        ensures
            r,
    {
        true
    }
}

} // verus!

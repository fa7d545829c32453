//! The value style factor.

use crate::scalar::Scalar;
use crate::styles::momentum::FEATURE_WINSOR_BITS;
use crate::traits::factor::{FactorKind, StyleFactor};
use vstd::prelude::*;

verus! {

/// Configuration of the value factor.
#[derive(Debug, Clone, Copy)]
pub struct ValueConfig {
    /// Percentile at which the price ratios are winsorized, if at all.
    pub winsorize_features: Option<Scalar>,
}

impl Default for ValueConfig {
    fn default() -> (r: ValueConfig)
        ensures
            r.winsorize_features == Some(Scalar { bits: FEATURE_WINSOR_BITS }),
    {
        ValueConfig { winsorize_features: Some(Scalar::from_bits(FEATURE_WINSOR_BITS)) }
    }
}

/// The value style factor: the average of the standardized ratios of book
/// value, sales and cash flow to price.
#[derive(Debug, Clone, Copy)]
pub struct ValueFactor {
    config: ValueConfig,
}

impl ValueFactor {
    /// The factor's configuration.
    pub closed spec fn spec_config(&self) -> ValueConfig {
        self.config
    }

    /// The factor with the default configuration.
    pub fn new() -> (r: ValueFactor)
        ensures
            r.spec_config().winsorize_features == Some(Scalar { bits: FEATURE_WINSOR_BITS }),
    {
        ValueFactor { config: ValueConfig::default() }
    }

    /// The factor with the given configuration.
    pub fn with_config(config: ValueConfig) -> (r: ValueFactor)
        ensures
            r.spec_config() == config,
    {
        ValueFactor { config }
    }

    /// The factor's configuration.
    pub fn config(&self) -> (r: &ValueConfig)
        ensures
            *r == self.spec_config(),
    {
        &self.config
    }

    /// The factor's name.
    pub fn name(&self) -> (r: &'static str)
        ensures
            r@ == "value"@,
    {
        "value"
    }

    /// The columns that the factor reads.
    pub fn required_columns(&self) -> (r: Vec<&'static str>)
        ensures
            r@.len() == 5,
            r@[0]@ == "date"@,
            r@[1]@ == "symbol"@,
            r@[2]@ == "book_price"@,
            r@[3]@ == "sales_price"@,
            r@[4]@ == "cf_price"@,
    {
        let mut columns: Vec<&'static str> = Vec::new();
        columns.push("date");
        columns.push("symbol");
        columns.push("book_price");
        columns.push("sales_price");
        columns.push("cf_price");
        columns
    }
}

impl Default for ValueFactor {
    fn default() -> (r: ValueFactor)
        ensures
            r.spec_config().winsorize_features == Some(Scalar { bits: FEATURE_WINSOR_BITS }),
    {
        ValueFactor::new()
    }
}

impl StyleFactor for ValueFactor {
    fn kind(&self) -> (r: FactorKind) {
        FactorKind::Style
    }

    fn residualize(&self) -> (r: bool)
        ensures
            r,
    {
        true
    }
}

} // verus!

//! Returns of assets on one date.

use crate::primitives::date::Date;
use crate::scalar::Scalar;
use crate::text::{is_absent, is_first_place, position_of};
use vstd::prelude::*;

verus! {

/// Whether `found` is the value listed for `symbol`: the value at the first
/// place at which `symbols` holds it, and nothing where it is absent or no
/// value stands at that place.
pub open spec fn is_listed_value(
    symbols: Seq<String>,
    values: Seq<Scalar>,
    symbol: Seq<char>,
    found: Option<Scalar>,
) -> bool {
    match found {
        Some(x) => exists|i: int|
            is_first_place(symbols, symbol, i) && i < values.len() && values[i] == x,
        None => is_absent(symbols, symbol) || exists|i: int|
            is_first_place(symbols, symbol, i) && i >= values.len(),
    }
}

/// Looks up the value listed for `symbol`.
pub fn listed_value(symbols: &Vec<String>, values: &Vec<Scalar>, symbol: &str) -> (found: Option<
    Scalar,
>)
    ensures
        is_listed_value(symbols@, values@, symbol@, found),
{
    match position_of(symbols, symbol) {
        Some(i) => {
            if i < values.len() {
                Some(values[i])
            } else {
                None
            }
        },
        None => None,
    }
}

/// The returns of the assets on one date.
#[derive(Debug, Clone)]
pub struct AssetReturns {
    /// The date.
    pub date: Date,
    /// The assets' symbols.
    pub symbols: Vec<String>,
    /// The assets' returns, in the order of the symbols.
    pub asset_returns: Vec<Scalar>,
}

impl AssetReturns {
    /// The returns of the given assets on the given date.
    pub fn new(date: Date, symbols: Vec<String>, asset_returns: Vec<Scalar>) -> (r: AssetReturns)
        requires
            symbols@.len() == asset_returns@.len(),
        ensures
            r.date == date,
            r.symbols == symbols,
            r.asset_returns == asset_returns,
    {
        AssetReturns { date, symbols, asset_returns }
    }

    /// The number of assets.
    pub fn len(&self) -> (n: usize)
        ensures
            n == self.symbols@.len(),
    {
        self.symbols.len()
    }

    /// Whether there is no asset.
    pub fn is_empty(&self) -> (r: bool)
        ensures
            r == (self.symbols@.len() == 0),
    {
        self.symbols.len() == 0
    }

    /// The return of the asset with the given symbol.
    pub fn get(&self, symbol: &str) -> (found: Option<Scalar>)
        ensures
            is_listed_value(self.symbols@, self.asset_returns@, symbol@, found),
    {
        listed_value(&self.symbols, &self.asset_returns, symbol)
    }
}

/// The residual returns of the assets on one date.
#[derive(Debug, Clone)]
pub struct ResidualReturns {
    /// The date.
    pub date: Date,
    /// The assets' symbols.
    pub symbols: Vec<String>,
    /// The assets' residual returns, in the order of the symbols.
    pub residuals: Vec<Scalar>,
}

impl ResidualReturns {
    /// The residual returns of the given assets on the given date.
    pub fn new(date: Date, symbols: Vec<String>, residuals: Vec<Scalar>) -> (r: ResidualReturns)
        requires
            symbols@.len() == residuals@.len(),
        ensures
            r.date == date,
            r.symbols == symbols,
            r.residuals == residuals,
    {
        ResidualReturns { date, symbols, residuals }
    }

    /// The number of assets.
    pub fn len(&self) -> (n: usize)
        ensures
            n == self.symbols@.len(),
    {
        self.symbols.len()
    }

    /// Whether there is no asset.
    pub fn is_empty(&self) -> (r: bool)
        ensures
            r == (self.symbols@.len() == 0),
    {
        self.symbols.len() == 0
    }

    /// The residual return of the asset with the given symbol.
    pub fn get(&self, symbol: &str) -> (found: Option<Scalar>)
        ensures
            is_listed_value(self.symbols@, self.residuals@, symbol@, found),
    {
        listed_value(&self.symbols, &self.residuals, symbol)
    }
}

} // verus!

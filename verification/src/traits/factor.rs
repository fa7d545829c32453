//! Kinds of factors and what the model asks of sector and style factors.

use vstd::prelude::*;

verus! {

/// The kind of a factor in the model.
#[derive(Debug, Clone, Copy, PartialEq, Eq, Hash, Structural)]
pub enum FactorKind {
    /// The market factor, to which every asset is exposed alike.
    Market,
    /// A sector or industry factor.
    Sector,
    /// A style factor such as momentum, value or size.
    Style,
}

impl FactorKind {
    /// The kind's name in lower case.
    pub fn to_string(&self) -> (r: String)
        ensures
            r@ == match *self {
                FactorKind::Market => "market"@,
                FactorKind::Sector => "sector"@,
                FactorKind::Style => "style"@,
            },
    {
        match self {
            FactorKind::Market => "market".to_string(),
            FactorKind::Sector => "sector".to_string(),
            FactorKind::Style => "style".to_string(),
        }
    }
}

/// A style factor such as momentum, value or size.
pub trait StyleFactor {
    /// The kind of the factor: always a style.
    fn kind(&self) -> (r: FactorKind)
        ensures
            r == FactorKind::Style,
    {
        FactorKind::Style
    }

    /// Whether the factor asks for its scores to be left as they are, not
    /// made orthogonal to the sectors. No factor does unless it says so.
    open spec fn keeps_sector_exposure(&self) -> bool {
        false
    }

    /// Whether the factor's scores are to be made orthogonal to the sectors.
    /// They are, for every factor that does not ask to keep its exposure to
    /// the sectors.
    fn residualize(&self) -> (r: bool)
        ensures
            r || self.keeps_sector_exposure(),
    {
        true
    }
}

/// A sector or industry factor.
pub trait SectorFactor {
    /// The names of the sectors that the factor covers.
    fn sector_names(&self) -> &[String];

    /// Whether the factor asks for sector returns that are free, not
    /// constrained to sum to zero. No factor does unless it says so.
    open spec fn frees_sector_returns(&self) -> bool {
        false
    }

    /// Whether the sector returns are constrained to sum to zero. They are,
    /// for every factor that does not ask for free sector returns.
    fn constrained(&self) -> (r: bool)
        ensures
            r || self.frees_sector_returns(),
    {
        true
    }
}

} // verus!

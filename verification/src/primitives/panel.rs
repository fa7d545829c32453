//! Panels of observations and the records that estimation leaves.

use crate::matrix::{rows_of, Matrix};
use crate::primitives::date::Date;
use crate::scalar::{copy_of, Scalar};
use crate::traits::factor::FactorKind;
use vstd::prelude::*;

verus! {

/// The observations of one date: one row per asset.
#[derive(Debug)]
pub struct CrossSection {
    /// The date.
    pub date: Date,
    /// The assets' symbols.
    pub symbols: Vec<String>,
    /// The assets' returns.
    pub asset_returns: Vec<Scalar>,
    /// The assets' market capitalizations.
    pub market_caps: Vec<Scalar>,
    /// The assets' sector exposures, one column per sector.
    pub sector_scores: Matrix,
    /// The assets' style exposures, one column per style.
    pub style_scores: Matrix,
}

/// The observations of one date, as sequences.
pub struct CrossSectionView {
    pub date: Date,
    pub symbols: Seq<Seq<char>>,
    pub asset_returns: Seq<Scalar>,
    pub market_caps: Seq<Scalar>,
    pub sector_scores: Seq<Seq<Scalar>>,
    pub sector_columns: nat,
    pub style_scores: Seq<Seq<Scalar>>,
    pub style_columns: nat,
}

/// The texts of a vector of strings.
pub open spec fn texts(v: Seq<String>) -> Seq<Seq<char>> {
    Seq::new(v.len(), |i: int| v[i]@)
}

impl View for CrossSection {
    type V = CrossSectionView;

    open spec fn view(&self) -> CrossSectionView {
        CrossSectionView {
            date: self.date,
            symbols: texts(self.symbols@),
            asset_returns: self.asset_returns@,
            market_caps: self.market_caps@,
            sector_scores: self.sector_scores@,
            sector_columns: self.sector_scores.spec_ncols(),
            style_scores: self.style_scores@,
            style_columns: self.style_scores.spec_ncols(),
        }
    }
}

/// The observation of one asset on one date.
#[derive(Debug, Clone)]
pub struct AssetObservation {
    /// The asset's symbol.
    pub symbol: String,
    /// The asset's return.
    pub asset_return: Scalar,
    /// The asset's weight, typically its market capitalization.
    pub weight: Scalar,
    /// The asset's exposures to the sectors.
    pub sector_exposures: Vec<Scalar>,
    /// The asset's exposures to the styles.
    pub style_exposures: Vec<Scalar>,
}

/// The symbols of a list of observations, in order.
pub open spec fn observed_symbols(v: Seq<AssetObservation>) -> Seq<Seq<char>> {
    Seq::new(v.len(), |i: int| v[i].symbol@)
}

/// The returns of a list of observations, in order.
pub open spec fn observed_returns(v: Seq<AssetObservation>) -> Seq<Scalar> {
    Seq::new(v.len(), |i: int| v[i].asset_return)
}

/// The weights of a list of observations, in order.
pub open spec fn observed_weights(v: Seq<AssetObservation>) -> Seq<Scalar> {
    Seq::new(v.len(), |i: int| v[i].weight)
}

/// The sector exposure rows of a list of observations, in order.
pub open spec fn observed_sectors(v: Seq<AssetObservation>) -> Seq<Seq<Scalar>> {
    Seq::new(v.len(), |i: int| v[i].sector_exposures@)
}

/// The style exposure rows of a list of observations, in order.
pub open spec fn observed_styles(v: Seq<AssetObservation>) -> Seq<Seq<Scalar>> {
    Seq::new(v.len(), |i: int| v[i].style_exposures@)
}

/// Whether the observations are aligned: all have as many sector exposures
/// as the first, and as many style exposures as the first.
pub open spec fn observations_aligned(v: Seq<AssetObservation>) -> bool {
    forall|i: int|
        0 <= i < v.len() ==> (#[trigger] v[i]).sector_exposures@.len()
            == v[0].sector_exposures@.len() && v[i].style_exposures@.len()
            == v[0].style_exposures@.len()
}

impl CrossSection {
    /// The cross-section of a date from the observations of its assets, row
    /// by row, or nothing where the observations are not aligned.
    pub fn from_observations(date: Date, observations: &Vec<AssetObservation>) -> (r: Option<
        CrossSection,
    >)
        ensures
            r is Some <==> observations_aligned(observations@),
            r matches Some(section) ==> {
                &&& section.date == date
                &&& section@.symbols == observed_symbols(observations@)
                &&& section@.asset_returns == observed_returns(observations@)
                &&& section@.market_caps == observed_weights(observations@)
                &&& section@.sector_scores == observed_sectors(observations@)
                &&& section@.style_scores == observed_styles(observations@)
            },
    {
        let n: usize = observations.len();
        let mut symbols: Vec<String> = Vec::new();
        let mut asset_returns: Vec<Scalar> = Vec::new();
        let mut market_caps: Vec<Scalar> = Vec::new();
        let mut sector_rows: Vec<Vec<Scalar>> = Vec::new();
        let mut style_rows: Vec<Vec<Scalar>> = Vec::new();
        let mut i: usize = 0;
        while i < n
            invariant
                n == observations@.len(),
                i <= n,
                symbols@.len() == i,
                asset_returns@.len() == i,
                market_caps@.len() == i,
                sector_rows@.len() == i,
                style_rows@.len() == i,
                forall|k: int| 0 <= k < i ==> (#[trigger] symbols@[k])@ == observations@[k].symbol@,
                forall|k: int| 0 <= k < i ==> (#[trigger] asset_returns@[k]) == observations@[k].asset_return,
                forall|k: int| 0 <= k < i ==> (#[trigger] market_caps@[k]) == observations@[k].weight,
                forall|k: int|
                    0 <= k < i ==> (#[trigger] sector_rows@[k])@ == observations@[k].sector_exposures@,
                forall|k: int|
                    0 <= k < i ==> (#[trigger] style_rows@[k])@ == observations@[k].style_exposures@,
            decreases n - i,
        {
            symbols.push(observations[i].symbol.clone());
            asset_returns.push(observations[i].asset_return);
            market_caps.push(observations[i].weight);
            sector_rows.push(copy_of(&observations[i].sector_exposures));
            style_rows.push(copy_of(&observations[i].style_exposures));
            i += 1;
        }
        assert(rows_of(sector_rows@) =~= observed_sectors(observations@));
        assert(rows_of(style_rows@) =~= observed_styles(observations@));
        let ghost sector_ok = forall|k: int|
            0 <= k < sector_rows@.len() ==> (#[trigger] sector_rows@[k])@.len()
                == sector_rows@[0]@.len();
        let ghost style_ok = forall|k: int|
            0 <= k < style_rows@.len() ==> (#[trigger] style_rows@[k])@.len() == style_rows@[0]@.len();
        proof {
            if observations_aligned(observations@) {
                assert forall|k: int| 0 <= k < sector_rows@.len() implies (#[trigger] sector_rows@[k])@.len()
                    == sector_rows@[0]@.len() by {
                    assert(observations@[k].sector_exposures@.len()
                        == observations@[0].sector_exposures@.len());
                }
                assert forall|k: int| 0 <= k < style_rows@.len() implies (#[trigger] style_rows@[k])@.len()
                    == style_rows@[0]@.len() by {
                    assert(observations@[k].style_exposures@.len()
                        == observations@[0].style_exposures@.len());
                }
            }
            if sector_ok && style_ok {
                assert forall|k: int| 0 <= k < observations@.len() implies (#[trigger] observations@[k]).sector_exposures@.len()
                    == observations@[0].sector_exposures@.len()
                    && observations@[k].style_exposures@.len()
                    == observations@[0].style_exposures@.len() by {
                    assert(sector_rows@[k]@.len() == sector_rows@[0]@.len());
                    assert(style_rows@[k]@.len() == style_rows@[0]@.len());
                }
            }
        }
        let sector_scores: Matrix = match Matrix::from_rows(sector_rows) {
            Some(m) => m,
            None => {
                return None;
            },
        };
        let style_scores: Matrix = match Matrix::from_rows(style_rows) {
            Some(m) => m,
            None => {
                return None;
            },
        };
        let section = CrossSection {
            date,
            symbols,
            asset_returns,
            market_caps,
            sector_scores,
            style_scores,
        };
        assert(section@.symbols =~= observed_symbols(observations@));
        assert(section@.asset_returns =~= observed_returns(observations@));
        assert(section@.market_caps =~= observed_weights(observations@));
        Some(section)
    }
}

/// A panel: the cross-sections of a sequence of dates, with the names of
/// the sector and of the style columns.
#[derive(Debug)]
pub struct Panel {
    /// The names of the sector columns.
    pub sector_names: Vec<String>,
    /// The names of the style columns.
    pub style_names: Vec<String>,
    /// The cross-sections, in the order in which they are to be processed.
    pub cross_sections: Vec<CrossSection>,
}

/// The views of a vector of cross-sections.
pub open spec fn sections(v: Seq<CrossSection>) -> Seq<CrossSectionView> {
    Seq::new(v.len(), |i: int| v[i]@)
}

/// The return of one factor on one date.
#[derive(Debug, Clone)]
pub struct FactorReturnRecord {
    /// The date.
    pub date: Date,
    /// The factor's name: `market`, or the name of a sector or style column.
    pub factor: String,
    /// The factor's kind.
    pub kind: FactorKind,
    /// The factor's return.
    pub value: Scalar,
}

/// The return of one factor on one date, its name as text.
pub struct FactorReturnEntry {
    pub date: Date,
    pub factor: Seq<char>,
    pub kind: FactorKind,
    pub value: Scalar,
}

impl View for FactorReturnRecord {
    type V = FactorReturnEntry;

    open spec fn view(&self) -> FactorReturnEntry {
        FactorReturnEntry {
            date: self.date,
            factor: self.factor@,
            kind: self.kind,
            value: self.value,
        }
    }
}

/// The residual return of one asset on one date.
#[derive(Debug, Clone)]
pub struct ResidualRecord {
    /// The date.
    pub date: Date,
    /// The asset's symbol.
    pub symbol: String,
    /// The asset's residual return.
    pub value: Scalar,
}

/// The residual return of one asset on one date, its symbol as text.
pub struct ResidualEntry {
    pub date: Date,
    pub symbol: Seq<char>,
    pub value: Scalar,
}

impl View for ResidualRecord {
    type V = ResidualEntry;

    open spec fn view(&self) -> ResidualEntry {
        ResidualEntry { date: self.date, symbol: self.symbol@, value: self.value }
    }
}

/// The views of a vector of factor return records.
pub open spec fn factor_entries(v: Seq<FactorReturnRecord>) -> Seq<FactorReturnEntry> {
    Seq::new(v.len(), |i: int| v[i]@)
}

/// The views of a vector of residual records.
pub open spec fn residual_entries(v: Seq<ResidualRecord>) -> Seq<ResidualEntry> {
    Seq::new(v.len(), |i: int| v[i]@)
}

} // verus!

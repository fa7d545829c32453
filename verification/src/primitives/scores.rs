//! Factor scores of assets on one date.

use crate::matrix::{rectangular, Matrix};
use crate::primitives::date::Date;
use crate::primitives::asset_returns::{is_listed_value, listed_value};
use crate::scalar::Scalar;
use crate::text::{is_absent, is_first_place, position_of};
use vstd::prelude::*;

verus! {

/// The scores of the assets on one factor and one date.
#[derive(Debug, Clone)]
pub struct AssetScores {
    /// The date.
    pub date: Date,
    /// The assets' symbols.
    pub symbols: Vec<String>,
    /// The assets' scores, in the order of the symbols.
    pub scores: Vec<Scalar>,
}

impl AssetScores {
    /// The scores of the given assets on the given date.
    pub fn new(date: Date, symbols: Vec<String>, scores: Vec<Scalar>) -> (r: AssetScores)
        requires
            symbols@.len() == scores@.len(),
        ensures
            r.date == date,
            r.symbols == symbols,
            r.scores == scores,
    {
        AssetScores { date, symbols, scores }
    }

    /// The number of assets.
    pub fn len(&self) -> (n: usize)
        ensures
            n == self.symbols@.len(),
    {
        self.symbols.len()
    }

    /// Whether there is no asset.
    pub fn is_empty(&self) -> (r: bool)
        ensures
            r == (self.symbols@.len() == 0),
    {
        self.symbols.len() == 0
    }

    /// The score of the asset with the given symbol.
    pub fn get(&self, symbol: &str) -> (found: Option<Scalar>)
        ensures
            is_listed_value(self.symbols@, self.scores@, symbol@, found),
    {
        listed_value(&self.symbols, &self.scores, symbol)
    }
}

/// The exposures of the assets to the sectors: one row per asset, one
/// column per sector.
#[derive(Debug, Clone)]
pub struct SectorScores {
    /// The sectors' names.
    pub sector_names: Vec<String>,
    /// The exposures.
    pub exposures: Matrix,
}

impl SectorScores {
    /// The exposures with their sectors' names.
    pub fn new(sector_names: Vec<String>, exposures: Matrix) -> (r: SectorScores)
        requires
            sector_names@.len() == exposures.spec_ncols(),
        ensures
            r.sector_names == sector_names,
            r.exposures == exposures,
    {
        SectorScores { sector_names, exposures }
    }

    /// The number of sectors.
    pub fn n_sectors(&self) -> (n: usize)
        ensures
            n == self.sector_names@.len(),
    {
        self.sector_names.len()
    }

    /// The number of assets.
    pub fn n_assets(&self) -> (n: usize)
        ensures
            n == self.exposures@.len(),
    {
        self.exposures.nrows()
    }

    /// The column of the sector with the given name.
    pub fn sector_index(&self, name: &str) -> (r: Option<usize>)
        ensures
            match r {
                Some(i) => is_first_place(self.sector_names@, name@, i as int),
                None => is_absent(self.sector_names@, name@),
            },
    {
        position_of(&self.sector_names, name)
    }
}

/// The scores of the assets on the styles: one row per asset, one column
/// per style.
#[derive(Debug, Clone)]
pub struct StyleScores {
    /// The styles' names.
    pub style_names: Vec<String>,
    /// The scores.
    pub scores: Matrix,
}

impl StyleScores {
    /// The scores with their styles' names.
    pub fn new(style_names: Vec<String>, scores: Matrix) -> (r: StyleScores)
        requires
            style_names@.len() == scores.spec_ncols(),
        ensures
            r.style_names == style_names,
            r.scores == scores,
    {
        StyleScores { style_names, scores }
    }

    /// The number of styles.
    pub fn n_styles(&self) -> (n: usize)
        ensures
            n == self.style_names@.len(),
    {
        self.style_names.len()
    }

    /// The number of assets.
    pub fn n_assets(&self) -> (n: usize)
        ensures
            n == self.scores@.len(),
    {
        self.scores.nrows()
    }

    /// The column of the style with the given name.
    pub fn style_index(&self, name: &str) -> (r: Option<usize>)
        ensures
            match r {
                Some(i) => is_first_place(self.style_names@, name@, i as int),
                None => is_absent(self.style_names@, name@),
            },
    {
        position_of(&self.style_names, name)
    }
}

/// The entries of the first `n` rows of `m`, row after row.
pub open spec fn flattened(m: Seq<Seq<Scalar>>, n: int) -> Seq<Scalar>
    decreases n,
{
    if n <= 0 {
        Seq::empty()
    } else {
        flattened(m, n - 1) + m[n - 1]
    }
}

/// Lists the entries of `m` row after row.
fn flatten(m: &Matrix) -> (out: Vec<Scalar>)
    ensures
        out@ == flattened(m@, m@.len() as int),
{
    let rows: usize = m.nrows();
    let cols: usize = m.ncols();
    let mut out: Vec<Scalar> = Vec::new();
    let mut i: usize = 0;
    while i < rows
        invariant
            rows == m@.len(),
            cols == m.spec_ncols(),
            rectangular(m@, cols as nat),
            i <= rows,
            out@ == flattened(m@, i as int),
        decreases rows - i,
    {
        let ghost before = out@;
        let mut j: usize = 0;
        while j < cols
            invariant
                rows == m@.len(),
                cols == m.spec_ncols(),
                rectangular(m@, cols as nat),
                i < rows,
                j <= cols,
                out@ == before + m@[i as int].take(j as int),
            decreases cols - j,
        {
            out.push(m.get(i, j));
            assert(m@[i as int].take(j + 1) =~= m@[i as int].take(j as int).push(
                m@[i as int][j as int],
            ));
            assert(out@ =~= before + m@[i as int].take(j + 1));
            j += 1;
        }
        assert(m@[i as int].take(cols as int) =~= m@[i as int]);
        i += 1;
    }
    out
}

/// The sector exposures and style scores of the assets on one date.
#[derive(Debug, Clone)]
pub struct FactorScores {
    /// The date.
    pub date: Date,
    /// The assets' symbols.
    pub symbols: Vec<String>,
    /// The sectors' names.
    pub sector_names: Vec<String>,
    /// The styles' names.
    pub style_names: Vec<String>,
    /// The sector exposures, row after row.
    pub sector_data: Vec<Scalar>,
    /// The style scores, row after row.
    pub style_data: Vec<Scalar>,
}

impl FactorScores {
    /// The scores of the given assets on the given date.
    pub fn new(date: Date, symbols: Vec<String>, sectors: SectorScores, styles: StyleScores) -> (r:
        FactorScores)
        requires
            symbols@.len() == sectors.exposures@.len(),
            symbols@.len() == styles.scores@.len(),
        ensures
            r.date == date,
            r.symbols == symbols,
            r.sector_names == sectors.sector_names,
            r.style_names == styles.style_names,
            r.sector_data@ == flattened(
                sectors.exposures@,
                sectors.exposures@.len() as int,
            ),
            r.style_data@ == flattened(styles.scores@, styles.scores@.len() as int),
    {
        let sector_data: Vec<Scalar> = flatten(&sectors.exposures);
        let style_data: Vec<Scalar> = flatten(&styles.scores);
        FactorScores {
            date,
            symbols,
            sector_names: sectors.sector_names,
            style_names: styles.style_names,
            sector_data,
            style_data,
        }
    }

    /// The number of assets.
    pub fn n_assets(&self) -> (n: usize)
        ensures
            n == self.symbols@.len(),
    {
        self.symbols.len()
    }

    /// The number of sectors.
    pub fn n_sectors(&self) -> (n: usize)
        ensures
            n == self.sector_names@.len(),
    {
        self.sector_names.len()
    }

    /// The number of styles.
    pub fn n_styles(&self) -> (n: usize)
        ensures
            n == self.style_names@.len(),
    {
        self.style_names.len()
    }

    /// The sector exposures, row after row.
    pub fn sector_exposures(&self) -> (r: &Vec<Scalar>)
        ensures
            r@ == self.sector_data@,
    {
        &self.sector_data
    }

    /// The style scores, row after row.
    pub fn style_scores(&self) -> (r: &Vec<Scalar>)
        ensures
            r@ == self.style_data@,
    {
        &self.style_data
    }
}

} // verus!

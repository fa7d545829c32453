//! Attribution of an asset's return to the factors.

use crate::math::least_squares::sum_prefix;
use crate::scalar::{Scalar, ONE_BITS};
use vstd::prelude::*;

verus! {

/// Bit pattern of `1e-10`, the magnitude under which a total return counts
/// as zero.
pub const NEGLIGIBLE_RETURN_BITS: u64 = 0x3ddb_7cdf_d9d7_bdbb;

/// What one factor contributes to an asset's return.
#[derive(Debug, Clone)]
pub struct FactorContribution {
    /// The factor's name.
    pub factor: String,
    /// The asset's exposure to the factor.
    pub exposure: Scalar,
    /// The factor's return over the period.
    pub factor_return: Scalar,
    /// The contribution: exposure times factor return.
    pub contribution: Scalar,
}

/// The attribution of an asset's return over a period.
#[derive(Debug, Clone)]
pub struct AttributionResult {
    /// The asset's symbol.
    pub symbol: String,
    /// First date of the period.
    pub start_date: String,
    /// Last date of the period.
    pub end_date: String,
    /// The asset's return over the period.
    pub total_return: Scalar,
    /// What the market contributes.
    pub market_contribution: Scalar,
    /// What the sectors contribute.
    pub sector_contributions: Vec<FactorContribution>,
    /// What the styles contribute.
    pub style_contributions: Vec<FactorContribution>,
    /// What no factor explains.
    pub idiosyncratic_contribution: Scalar,
    /// The share of the return that the factors explain.
    pub r_squared: Scalar,
}

impl FactorContribution {
    /// The contribution of a factor from the asset's exposure to it and its
    /// return: their product.
    pub fn new(factor: String, exposure: Scalar, factor_return: Scalar) -> (r: FactorContribution)
        ensures
            r.factor == factor,
            r.exposure == exposure,
            r.factor_return == factor_return,
            r.contribution == exposure.spec_mul(factor_return),
    {
        FactorContribution {
            factor,
            exposure,
            factor_return,
            contribution: exposure.mul(factor_return),
        }
    }
}

/// The return that the factors explain: the market's contribution, plus
/// the sectors', plus the styles'.
pub open spec fn explained_return(
    market: Scalar,
    sectors: Seq<FactorContribution>,
    styles: Seq<FactorContribution>,
) -> Scalar {
    market.spec_add(sum_prefix(contributions(sectors), sectors.len() as int)).spec_add(
        sum_prefix(contributions(styles), styles.len() as int),
    )
}

/// The share of a total return that the factors explain: the magnitude of
/// the ratio of the explained return to the total, at most one, and zero
/// where the total is negligible.
pub open spec fn explained_share(explained: Scalar, total: Scalar) -> Scalar {
    if total.spec_abs().spec_gt(Scalar { bits: NEGLIGIBLE_RETURN_BITS }) {
        explained.spec_div(total).spec_abs().spec_min(Scalar { bits: ONE_BITS })
    } else {
        Scalar::spec_zero()
    }
}

/// The contributions of a list of factors, in order.
pub open spec fn contributions(v: Seq<FactorContribution>) -> Seq<Scalar> {
    Seq::new(v.len(), |i: int| v[i].contribution)
}

/// The sum of the contributions of a list of factors.
fn total_contribution(v: &Vec<FactorContribution>) -> (r: Scalar)
    ensures
        r == sum_prefix(contributions(v@), v@.len() as int),
{
    let mut total: Scalar = Scalar::zero();
    let mut i: usize = 0;
    while i < v.len()
        invariant
            i <= v@.len(),
            total == sum_prefix(contributions(v@), i as int),
        decreases v@.len() - i,
    {
        total = total.add(v[i].contribution);
        i += 1;
    }
    total
}

impl AttributionResult {
    /// The attribution of an asset's return from what the market, the
    /// sectors and the styles contribute and what is left over: the total is
    /// the explained return plus the rest, and the fit the explained share
    /// of the total.
    pub fn new(
        symbol: String,
        start_date: String,
        end_date: String,
        market_contribution: Scalar,
        sector_contributions: Vec<FactorContribution>,
        style_contributions: Vec<FactorContribution>,
        idiosyncratic_contribution: Scalar,
    ) -> (r: AttributionResult)
        ensures
            r.symbol == symbol,
            r.start_date == start_date,
            r.end_date == end_date,
            r.market_contribution == market_contribution,
            r.sector_contributions == sector_contributions,
            r.style_contributions == style_contributions,
            r.idiosyncratic_contribution == idiosyncratic_contribution,
            r.total_return == explained_return(
                market_contribution,
                sector_contributions@,
                style_contributions@,
            ).spec_add(idiosyncratic_contribution),
            r.r_squared == explained_share(
                explained_return(market_contribution, sector_contributions@, style_contributions@),
                r.total_return,
            ),
    {
        let explained: Scalar = market_contribution.add(
            total_contribution(&sector_contributions),
        ).add(total_contribution(&style_contributions));
        let total_return: Scalar = explained.add(idiosyncratic_contribution);
        let r_squared: Scalar = if total_return.abs().gt(
            Scalar::from_bits(NEGLIGIBLE_RETURN_BITS),
        ) {
            explained.div(total_return).abs().min(Scalar::one())
        } else {
            Scalar::zero()
        };
        AttributionResult {
            symbol,
            start_date,
            end_date,
            total_return,
            market_contribution,
            sector_contributions,
            style_contributions,
            idiosyncratic_contribution,
            r_squared,
        }
    }

    /// The part of the return that the factors explain: the market's
    /// contribution, plus the sectors', plus the styles'.
    pub fn factor_explained_return(&self) -> (r: Scalar)
        ensures
            r == explained_return(
                self.market_contribution,
                self.sector_contributions@,
                self.style_contributions@,
            ),
    {
        self.market_contribution.add(total_contribution(&self.sector_contributions)).add(
            total_contribution(&self.style_contributions),
        )
    }
}

} // verus!

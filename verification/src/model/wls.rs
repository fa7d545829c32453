//! Estimation of factor returns for one period by weighted least squares.

use crate::math::constrained::{
    constrained_outcome,
    constrained_wls,
    no_sector_message,
    ConstrainedWlsModel,
    ConstrainedWlsResult,
};
use crate::math::error::MathError;
use crate::math::weights::{regression_weights, transform_weights};
use crate::math::winsorize::{percentile_is_valid, winsorize, winsorized};
use crate::matrix::Matrix;
use crate::scalar::Scalar;
use crate::traits::estimator::{EstimatorError, FactorEstimator};
use vstd::prelude::*;

verus! {

/// Bit pattern of `0.05`, the percentile at which returns are winsorized by
/// default.
pub const DEFAULT_WINSOR_BITS: u64 = 0x3fa9_9999_9999_999a;

/// Configuration of the weighted least squares estimator.
#[derive(Debug, Clone, Copy)]
pub struct WlsConfig {
    /// Percentile at which returns are winsorized, if at all.
    pub winsor_factor: Option<Scalar>,
    /// Whether style scores were made orthogonal to the sectors upstream.
    pub residualize_styles: bool,
}

impl Default for WlsConfig {
    fn default() -> (r: WlsConfig)
        ensures
            r.winsor_factor == Some(Scalar { bits: DEFAULT_WINSOR_BITS }),
            r.residualize_styles,
    {
        WlsConfig {
            winsor_factor: Some(Scalar::from_bits(DEFAULT_WINSOR_BITS)),
            residualize_styles: true,
        }
    }
}

/// The returns as they enter the regression: winsorized where a percentile
/// is set, which has to be valid, and as given where none is.
pub open spec fn cleaned_returns(winsor: Option<Scalar>, asset_returns: Seq<Scalar>) -> Result<
    Seq<Scalar>,
    MathError,
> {
    match winsor {
        Some(p) => if percentile_is_valid(p) {
            Ok(winsorized(asset_returns, p))
        } else {
            Err(MathError::InvalidPercentile(p))
        },
        None => Ok(asset_returns),
    }
}

/// The factor returns in one sequence: market, then sectors, then styles.
pub open spec fn stacked(fit: ConstrainedWlsModel) -> Seq<Scalar> {
    seq![fit.market_return] + fit.sector_returns + fit.style_returns
}

/// What the estimation of one period gives where the row counts agree and
/// there are `k >= 1` sector columns: the factor returns and the residuals,
/// or the error of the numerical routine that failed.
pub open spec fn single_outcome(
    winsor: Option<Scalar>,
    asset_returns: Seq<Scalar>,
    raw_weights: Seq<Scalar>,
    sectors: Seq<Seq<Scalar>>,
    k: nat,
    styles: Seq<Seq<Scalar>>,
    m: nat,
) -> Result<(Seq<Scalar>, Seq<Scalar>), MathError> {
    match cleaned_returns(winsor, asset_returns) {
        Err(e) => Err(e),
        Ok(clean) => match constrained_outcome(
            clean,
            regression_weights(raw_weights),
            sectors,
            k,
            styles,
            m,
        ) {
            Err(e) => Err(e),
            Ok(fit) => Ok((stacked(fit), fit.residuals)),
        },
    }
}

/// The input whose row count disagrees with the `n` returns, if any, with
/// its row count: weights first, then sector scores, then style scores.
pub open spec fn mismatched_input(n: nat, weights: nat, sector_rows: nat, style_rows: nat) -> Option<
    (Seq<char>, nat),
> {
    if weights != n {
        Some(("weights"@, weights))
    } else if sector_rows != n {
        Some(("sector_scores"@, sector_rows))
    } else if style_rows != n {
        Some(("style_scores"@, style_rows))
    } else {
        None
    }
}

/// Whether `r` is what the estimation of one period has to give.
pub open spec fn is_single_estimate(
    r: Result<(Vec<Scalar>, Vec<Scalar>), EstimatorError>,
    winsor: Option<Scalar>,
    asset_returns: Seq<Scalar>,
    raw_weights: Seq<Scalar>,
    sectors: Seq<Seq<Scalar>>,
    k: nat,
    styles: Seq<Seq<Scalar>>,
    m: nat,
) -> bool {
    match mismatched_input(asset_returns.len(), raw_weights.len(), sectors.len(), styles.len()) {
        Some((name, rows)) => r matches Err(
            EstimatorError::DimensionMismatch { expected, actual, context },
        ) && expected == asset_returns.len() && actual == rows && context@ == name,
        None => match cleaned_returns(winsor, asset_returns) {
            Err(e) => r matches Err(EstimatorError::LinearAlgebra(failure)) && failure == e,
            Ok(clean) => if k == 0 {
                r matches Err(
                    EstimatorError::LinearAlgebra(MathError::InvalidConfiguration(message)),
                ) && message@ == no_sector_message()
            } else {
                match r {
                    Ok(found) => single_outcome(winsor, asset_returns, raw_weights, sectors, k, styles, m)
                        == Ok::<(Seq<Scalar>, Seq<Scalar>), MathError>((found.0@, found.1@)),
                    Err(e) => e matches EstimatorError::LinearAlgebra(failure) && single_outcome(
                        winsor,
                        asset_returns,
                        raw_weights,
                        sectors,
                        k,
                        styles,
                        m,
                    ) == Err::<(Seq<Scalar>, Seq<Scalar>), MathError>(failure),
                }
            },
        },
    }
}

/// The factor returns in one vector: market, then sectors, then styles.
fn stack(fit: &ConstrainedWlsResult) -> (all: Vec<Scalar>)
    ensures
        all@ == stacked(fit@),
{
    let mut out: Vec<Scalar> = Vec::new();
    out.push(fit.market_return);
    let mut i: usize = 0;
    while i < fit.sector_returns.len()
        invariant
            i <= fit.sector_returns@.len(),
            out@ == seq![fit.market_return] + fit.sector_returns@.take(i as int),
        decreases fit.sector_returns@.len() - i,
    {
        out.push(fit.sector_returns[i]);
        assert(fit.sector_returns@.take(i + 1) =~= fit.sector_returns@.take(i as int).push(
            fit.sector_returns@[i as int],
        ));
        assert(out@ =~= seq![fit.market_return] + fit.sector_returns@.take(i + 1));
        i += 1;
    }
    assert(fit.sector_returns@.take(i as int) =~= fit.sector_returns@);
    let mut j: usize = 0;
    while j < fit.style_returns.len()
        invariant
            j <= fit.style_returns@.len(),
            out@ == seq![fit.market_return] + fit.sector_returns@ + fit.style_returns@.take(j as int),
        decreases fit.style_returns@.len() - j,
    {
        out.push(fit.style_returns[j]);
        assert(fit.style_returns@.take(j + 1) =~= fit.style_returns@.take(j as int).push(
            fit.style_returns@[j as int],
        ));
        assert(out@ =~= seq![fit.market_return] + fit.sector_returns@ + fit.style_returns@.take(
            j + 1,
        ));
        j += 1;
    }
    assert(fit.style_returns@.take(j as int) =~= fit.style_returns@);
    out
}

/// Estimator of the factor returns of a single period.
#[derive(Debug, Clone, Copy)]
pub struct WlsFactorEstimator {
    config: WlsConfig,
}

impl WlsFactorEstimator {
    /// The estimator's configuration.
    pub closed spec fn spec_config(&self) -> WlsConfig {
        self.config
    }

    /// The estimator with the default configuration.
    pub fn new() -> (r: WlsFactorEstimator)
        ensures
            r.spec_config().winsor_factor == Some(Scalar { bits: DEFAULT_WINSOR_BITS }),
            r.spec_config().residualize_styles,
    {
        WlsFactorEstimator { config: WlsConfig::default() }
    }

    /// The percentile at which returns are winsorized, if at all.
    pub fn winsor_factor(&self) -> (r: Option<Scalar>)
        ensures
            r == self.spec_config().winsor_factor,
    {
        self.config.winsor_factor
    }

    /// Whether style scores were made orthogonal to the sectors upstream.
    pub fn residualize_styles(&self) -> (r: bool)
        ensures
            r == self.spec_config().residualize_styles,
    {
        self.config.residualize_styles
    }
}

impl Default for WlsFactorEstimator {
    fn default() -> (r: WlsFactorEstimator)
        ensures
            r.spec_config().winsor_factor == Some(Scalar { bits: DEFAULT_WINSOR_BITS }),
            r.spec_config().residualize_styles,
    {
        WlsFactorEstimator::new()
    }
}

impl FactorEstimator for WlsFactorEstimator {
    type Config = WlsConfig;

    fn with_config(config: WlsConfig) -> (r: WlsFactorEstimator)
        ensures
            r.spec_config() == config,
    {
        WlsFactorEstimator { config }
    }

    /// Checks the row counts, winsorizes the returns where a percentile is
    /// set, takes the square roots of the weights, runs the constrained
    /// regression and stacks the factor returns.
    fn estimate_single(
        &self,
        asset_returns: &Vec<Scalar>,
        weights: &Vec<Scalar>,
        sector_scores: &Matrix,
        style_scores: &Matrix,
    ) -> (r: Result<(Vec<Scalar>, Vec<Scalar>), EstimatorError>)
        ensures
            is_single_estimate(
                r,
                self.spec_config().winsor_factor,
                asset_returns@,
                weights@,
                sector_scores@,
                sector_scores.spec_ncols(),
                style_scores@,
                style_scores.spec_ncols(),
            ),
            r matches Ok(found) ==> found.0@.len() == 1 + sector_scores.spec_ncols()
                + style_scores.spec_ncols() && found.1@.len() == asset_returns@.len(),
    {
        let n: usize = asset_returns.len();
        if weights.len() != n {
            return Err(
                EstimatorError::DimensionMismatch {
                    expected: n,
                    actual: weights.len(),
                    context: "weights".to_string(),
                },
            );
        }
        if sector_scores.nrows() != n {
            return Err(
                EstimatorError::DimensionMismatch {
                    expected: n,
                    actual: sector_scores.nrows(),
                    context: "sector_scores".to_string(),
                },
            );
        }
        if style_scores.nrows() != n {
            return Err(
                EstimatorError::DimensionMismatch {
                    expected: n,
                    actual: style_scores.nrows(),
                    context: "style_scores".to_string(),
                },
            );
        }
        let sqrt_weights: Vec<Scalar> = transform_weights(weights);
        let outcome = match self.config.winsor_factor {
            Some(pct) => match winsorize(asset_returns, pct) {
                Ok(clean) => constrained_wls(&clean, &sqrt_weights, sector_scores, style_scores),
                Err(e) => {
                    return Err(EstimatorError::LinearAlgebra(e));
                },
            },
            None => constrained_wls(asset_returns, &sqrt_weights, sector_scores, style_scores),
        };
        match outcome {
            Ok(fit) => {
                let all: Vec<Scalar> = stack(&fit);
                Ok((all, fit.residuals))
            },
            Err(e) => Err(EstimatorError::LinearAlgebra(e)),
        }
    }
}

} // verus!

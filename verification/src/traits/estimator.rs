//! What an estimator of factor returns offers, and how it fails.

use crate::math::error::MathError;
use crate::matrix::Matrix;
use crate::primitives::panel::{FactorReturnRecord, Panel, ResidualRecord};
use crate::scalar::Scalar;
use crate::text::{decimal, decimal_string};
use vstd::prelude::*;
use vstd::string::StringExecFns;

verus! {

/// What can go wrong when factor returns are estimated.
#[derive(Debug)]
pub enum EstimatorError {
    /// An input does not have as many rows as there are returns.
    DimensionMismatch { expected: usize, actual: usize, context: String },
    /// There are too few observations to estimate from.
    InsufficientData { required: usize, actual: usize },
    /// The design matrix has fewer independent columns than columns.
    RankDeficient { rank: usize, columns: usize },
    /// A required column is missing.
    MissingColumn(String),
    /// The configuration is invalid.
    InvalidConfig(String),
    /// A numerical routine failed.
    LinearAlgebra(MathError),
}

impl EstimatorError {
    /// Whether estimation can go on with other data after this error.
    pub fn is_recoverable(&self) -> (r: bool)
        ensures
            r == (*self is InsufficientData || *self is RankDeficient),
    {
        match self {
            EstimatorError::InsufficientData { .. } => true,
            EstimatorError::RankDeficient { .. } => true,
            _ => false,
        }
    }

    /// The error in words.
    pub open spec fn message(&self) -> Seq<char> {
        match *self {
            EstimatorError::DimensionMismatch { expected, actual, context } =>
                "dimension mismatch for "@ + context@ + ": expected "@ + decimal(expected as nat)
                    + ", got "@ + decimal(actual as nat),
            EstimatorError::InsufficientData { required, actual } =>
                "insufficient data: need at least "@ + decimal(required as nat)
                    + " observations, got "@ + decimal(actual as nat),
            EstimatorError::RankDeficient { rank, columns } =>
                "rank deficient design matrix: rank "@ + decimal(rank as nat) + " < columns "@
                    + decimal(columns as nat),
            EstimatorError::MissingColumn(name) => "missing required column: "@ + name@,
            EstimatorError::InvalidConfig(m) => "invalid configuration: "@ + m@,
            EstimatorError::LinearAlgebra(e) => "linear algebra error: "@ + e.message(),
        }
    }

    /// The error in words.
    pub fn to_string(&self) -> (r: String)
        ensures
            r@ == self.message(),
    {
        match self {
            EstimatorError::DimensionMismatch { expected, actual, context } => {
                let wanted = decimal_string(*expected);
                let got = decimal_string(*actual);
                String::from_str("dimension mismatch for ").concat(context.as_str()).concat(
                    ": expected ",
                ).concat(wanted.as_str()).concat(", got ").concat(got.as_str())
            },
            EstimatorError::InsufficientData { required, actual } => {
                let wanted = decimal_string(*required);
                let got = decimal_string(*actual);
                String::from_str("insufficient data: need at least ").concat(
                    wanted.as_str(),
                ).concat(" observations, got ").concat(got.as_str())
            },
            EstimatorError::RankDeficient { rank, columns } => {
                let have = decimal_string(*rank);
                let want = decimal_string(*columns);
                String::from_str("rank deficient design matrix: rank ").concat(
                    have.as_str(),
                ).concat(" < columns ").concat(want.as_str())
            },
            EstimatorError::MissingColumn(name) => String::from_str(
                "missing required column: ",
            ).concat(name.as_str()),
            EstimatorError::InvalidConfig(m) => String::from_str("invalid configuration: ").concat(
                m.as_str(),
            ),
            EstimatorError::LinearAlgebra(e) => {
                let inner = e.to_string();
                String::from_str("linear algebra error: ").concat(inner.as_str())
            },
        }
    }
}

/// An estimator of factor returns from one cross-section.
pub trait FactorEstimator: Sized {
    /// What configures the estimator.
    type Config;

    /// The estimator with the given configuration.
    fn with_config(config: Self::Config) -> Self;

    /// Estimates the factor returns of one period from the returns of the
    /// assets, their weights, and their sector and style exposures. Gives the
    /// factor returns, market first, then sectors, then styles, and the
    /// residual returns of the assets.
    fn estimate_single(
        &self,
        asset_returns: &Vec<Scalar>,
        weights: &Vec<Scalar>,
        sector_scores: &Matrix,
        style_scores: &Matrix,
    ) -> Result<(Vec<Scalar>, Vec<Scalar>), EstimatorError>;
}

/// An estimator of factor returns over the dates of a panel.
pub trait ReturnsEstimator {
    /// Estimates the factor returns of every date of the panel. Gives the
    /// factor return records and the residual records of the dates that
    /// could be estimated, in the order of the dates.
    fn estimate(&self, panel: &Panel) -> Result<
        (Vec<FactorReturnRecord>, Vec<ResidualRecord>),
        EstimatorError,
    >;

    /// The percentile at which returns are winsorized, if at all.
    fn winsor_factor(&self) -> Option<Scalar>;

    /// Whether style scores were made orthogonal to the sectors upstream.
    fn residualize_styles(&self) -> bool;
}

} // verus!

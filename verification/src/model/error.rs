//! Errors of factor model estimation.

use crate::math::error::MathError;
use crate::traits::estimator::EstimatorError;
use vstd::prelude::*;
use vstd::std_specs::convert::FromSpecImpl;
use vstd::string::StringExecFns;

verus! {

/// What can go wrong when a factor model is estimated.
#[derive(Debug)]
pub enum ModelError {
    /// The estimator failed.
    Estimator(EstimatorError),
    /// A numerical routine failed.
    Math(MathError),
    /// A required column is missing.
    MissingColumn(String),
    /// The configuration is invalid.
    InvalidConfig(String),
    /// There is no data for a date.
    NoDataForDate(String),
    /// Two dimensions that must agree do not.
    DimensionMismatch(String),
}

impl ModelError {
    /// Whether estimation can go on with other data after this error.
    pub fn is_recoverable(&self) -> (r: bool)
        ensures
            r == (*self is NoDataForDate),
    {
        match self {
            ModelError::NoDataForDate(_) => true,
            _ => false,
        }
    }

    /// The error in words.
    pub open spec fn message(&self) -> Seq<char> {
        match *self {
            ModelError::Estimator(e) => "estimator error: "@ + e.message(),
            ModelError::Math(e) => "math error: "@ + e.message(),
            ModelError::MissingColumn(name) => "missing required column: "@ + name@,
            ModelError::InvalidConfig(m) => "invalid configuration: "@ + m@,
            ModelError::NoDataForDate(date) => "no data for date: "@ + date@,
            ModelError::DimensionMismatch(m) => "dimension mismatch: "@ + m@,
        }
    }

    /// The error in words.
    pub fn to_string(&self) -> (r: String)
        ensures
            r@ == self.message(),
    {
        match self {
            ModelError::Estimator(e) => {
                let inner = e.to_string();
                String::from_str("estimator error: ").concat(inner.as_str())
            },
            ModelError::Math(e) => {
                let inner = e.to_string();
                String::from_str("math error: ").concat(inner.as_str())
            },
            ModelError::MissingColumn(name) => String::from_str("missing required column: ").concat(
                name.as_str(),
            ),
            ModelError::InvalidConfig(m) => String::from_str("invalid configuration: ").concat(
                m.as_str(),
            ),
            ModelError::NoDataForDate(date) => String::from_str("no data for date: ").concat(
                date.as_str(),
            ),
            ModelError::DimensionMismatch(m) => String::from_str("dimension mismatch: ").concat(
                m.as_str(),
            ),
        }
    }
}

impl From<EstimatorError> for ModelError {
    fn from(e: EstimatorError) -> (r: ModelError) {
        ModelError::Estimator(e)
    }
}

impl FromSpecImpl<EstimatorError> for ModelError {
    open spec fn obeys_from_spec() -> bool {
        true
    }

    open spec fn from_spec(e: EstimatorError) -> ModelError {
        ModelError::Estimator(e)
    }
}

impl From<MathError> for ModelError {
    fn from(e: MathError) -> (r: ModelError) {
        ModelError::Math(e)
    }
}

impl FromSpecImpl<MathError> for ModelError {
    open spec fn obeys_from_spec() -> bool {
        true
    }

    open spec fn from_spec(e: MathError) -> ModelError {
        ModelError::Math(e)
    }
}

} // verus!

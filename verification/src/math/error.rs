//! Errors of the numerical routines.

use crate::scalar::Scalar;
use crate::text::{decimal, decimal_string};
use vstd::prelude::*;
use vstd::string::StringExecFns;

verus! {

/// What can go wrong in a numerical routine.
#[derive(Debug)]
pub enum MathError {
    /// The percentile is not strictly between 0 and 0.5.
    InvalidPercentile(Scalar),
    /// Two dimensions that must agree do not.
    DimensionMismatch { expected: usize, actual: usize },
    /// Elimination met a pivot too small to divide by.
    SingularMatrix,
    /// The request is invalid whatever the data.
    InvalidConfiguration(String),
    /// There is nothing to compute on.
    EmptyData,
}

impl MathError {
    /// The error in words.
    pub open spec fn message(&self) -> Seq<char> {
        match *self {
            MathError::InvalidPercentile(p) => "invalid percentile: "@ + p.spec_text()
                + " (must be in (0, 0.5))"@,
            MathError::DimensionMismatch { expected, actual } => "dimension mismatch: expected "@
                + decimal(expected as nat) + ", got "@ + decimal(actual as nat),
            MathError::SingularMatrix => "matrix is singular or nearly singular"@,
            MathError::InvalidConfiguration(m) => "invalid configuration: "@ + m@,
            MathError::EmptyData => "empty data provided"@,
        }
    }

    /// The error in words.
    pub fn to_string(&self) -> (r: String)
        ensures
            r@ == self.message(),
    {
        match self {
            MathError::InvalidPercentile(p) => {
                let value = p.to_string();
                String::from_str("invalid percentile: ").concat(value.as_str()).concat(
                    " (must be in (0, 0.5))",
                )
            },
            MathError::DimensionMismatch { expected, actual } => {
                let wanted = decimal_string(*expected);
                let got = decimal_string(*actual);
                String::from_str("dimension mismatch: expected ").concat(wanted.as_str()).concat(
                    ", got ",
                ).concat(got.as_str())
            },
            MathError::SingularMatrix => String::from_str("matrix is singular or nearly singular"),
            MathError::InvalidConfiguration(m) => String::from_str("invalid configuration: ").concat(
                m.as_str(),
            ),
            MathError::EmptyData => String::from_str("empty data provided"),
        }
    }
}

} // verus!

//! Errors of style factor computation.

use crate::math::error::MathError;
use vstd::prelude::*;
use vstd::string::StringExecFns;

verus! {

/// What can go wrong when a style factor is computed.
#[derive(Debug)]
pub enum StyleError {
    /// The factor itself failed; the message says how.
    Factor(String),
    /// A numerical routine failed.
    Math(MathError),
    /// The configuration is invalid.
    InvalidConfig(String),
}

impl StyleError {
    /// The error in words.
    pub fn to_string(&self) -> (r: String)
        ensures
            r@ == match *self {
                StyleError::Factor(m) => "factor error: "@ + m@,
                StyleError::Math(e) => "math error: "@ + e.message(),
                StyleError::InvalidConfig(m) => "invalid configuration: "@ + m@,
            },
    {
        match self {
            StyleError::Factor(m) => String::from_str("factor error: ").concat(m.as_str()),
            StyleError::Math(e) => {
                let inner = e.to_string();
                String::from_str("math error: ").concat(inner.as_str())
            },
            StyleError::InvalidConfig(m) => String::from_str("invalid configuration: ").concat(
                m.as_str(),
            ),
        }
    }
}

} // verus!

//! How a transformation of data fails.

use vstd::prelude::*;
use vstd::string::StringExecFns;

verus! {

/// What can go wrong when data is transformed.
#[derive(Debug)]
pub enum TransformError {
    /// There is no data to transform.
    EmptyData,
    /// A parameter is invalid.
    InvalidParameter(String),
    /// The numbers are not usable: a NaN or an infinity.
    Numerical(String),
}

impl TransformError {
    /// The error in words.
    pub open spec fn message(&self) -> Seq<char> {
        match *self {
            TransformError::EmptyData => "empty input data"@,
            TransformError::InvalidParameter(m) => "invalid parameter: "@ + m@,
            TransformError::Numerical(m) => "numerical error: "@ + m@,
        }
    }

    /// The error in words.
    pub fn to_string(&self) -> (r: String)
        ensures
            r@ == self.message(),
    {
        match self {
            TransformError::EmptyData => String::from_str("empty input data"),
            TransformError::InvalidParameter(m) => String::from_str("invalid parameter: ").concat(
                m.as_str(),
            ),
            TransformError::Numerical(m) => String::from_str("numerical error: ").concat(
                m.as_str(),
            ),
        }
    }
}

} // verus!

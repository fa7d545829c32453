//! How a utility on tabular data fails.

use vstd::prelude::*;
use vstd::string::StringExecFns;

verus! {

/// What can go wrong in a utility on tabular data.
#[derive(Debug)]
pub enum UtilsError {
    /// A parameter is invalid.
    InvalidParameter(String),
    /// A column is missing.
    MissingColumn(String),
}

impl UtilsError {
    /// The error in words.
    pub open spec fn message(&self) -> Seq<char> {
        match *self {
            UtilsError::InvalidParameter(m) => "invalid parameter: "@ + m@,
            UtilsError::MissingColumn(name) => "missing column: "@ + name@,
        }
    }

    /// The error in words.
    pub fn to_string(&self) -> (r: String)
        ensures
            r@ == self.message(),
    {
        match self {
            UtilsError::InvalidParameter(m) => String::from_str("invalid parameter: ").concat(
                m.as_str(),
            ),
            UtilsError::MissingColumn(name) => String::from_str("missing column: ").concat(
                name.as_str(),
            ),
        }
    }
}

} // verus!

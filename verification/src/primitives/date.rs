//! Calendar dates.

use vstd::prelude::*;

verus! {

/// A calendar date without a time zone. Dates are carried through unread.
#[verifier::external_type_specification]
#[verifier::external_body]
pub struct ExNaiveDate(chrono::NaiveDate);

/// `Clone::clone` of `chrono::NaiveDate`, which the crate derives for a type
/// that is also `Copy`: the clone is the date itself.
pub assume_specification[ <chrono::NaiveDate as Clone>::clone ](date: &chrono::NaiveDate) -> (r:
    chrono::NaiveDate)
    ensures
        r == *date,
;

/// The date of an observation.
pub type Date = chrono::NaiveDate;

} // verus!

//! Constraints on sector returns.

use vstd::prelude::*;

verus! {

/// The kind of constraint put on sector returns.
#[derive(Debug, Clone, Copy, PartialEq, Eq, Structural)]
pub enum ConstraintType {
    /// Sector returns sum to zero, which makes the market return identifiable.
    SumToZero,
    /// Sector returns are free.
    Unconstrained,
}

impl Default for ConstraintType {
    fn default() -> (r: ConstraintType)
        ensures
            r == ConstraintType::SumToZero,
    {
        ConstraintType::SumToZero
    }
}

/// How sector returns are constrained.
#[derive(Debug, Clone)]
pub struct SectorConstraint {
    /// The kind of constraint.
    pub constraint_type: ConstraintType,
}

impl SectorConstraint {
    /// The constraint that sector returns sum to zero.
    pub fn sum_to_zero() -> (r: SectorConstraint)
        ensures
            r.constraint_type == ConstraintType::SumToZero,
    {
        SectorConstraint { constraint_type: ConstraintType::SumToZero }
    }

    /// No constraint.
    pub fn none() -> (r: SectorConstraint)
        ensures
            r.constraint_type == ConstraintType::Unconstrained,
    {
        SectorConstraint { constraint_type: ConstraintType::Unconstrained }
    }

    /// Whether a constraint is in force.
    pub fn is_constrained(&self) -> (r: bool)
        ensures
            r == (self.constraint_type == ConstraintType::SumToZero),
    {
        match self.constraint_type {
            ConstraintType::SumToZero => true,
            ConstraintType::Unconstrained => false,
        }
    }
}

impl Default for SectorConstraint {
    fn default() -> (r: SectorConstraint)
        ensures
            r.constraint_type == ConstraintType::SumToZero,
    {
        SectorConstraint::sum_to_zero()
    }
}

} // verus!

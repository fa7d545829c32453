//! Estimation of a multi-factor risk model for a universe of assets.
//!
//! For each date, the cross-section of asset returns is decomposed into a
//! market return, sector returns that sum to zero, style returns, and a
//! residual per asset. The parts, from the leaves up:
//!
//! - `scalar`: double-precision numbers as bit patterns;
//! - `matrix`: dense matrices of them;
//! - `math`: the linear solver, weighted least squares, the constrained
//!   regression and winsorization;
//! - `model`: the estimators for one period and for a panel of dates;
//! - `primitives`, `traits`, `styles`, `utils`: the data model and what
//!   surrounds the estimators.

pub mod math;
pub mod matrix;
pub mod model;
pub mod primitives;
pub mod scalar;
pub mod styles;
pub mod text;
pub mod traits;
pub mod utils;

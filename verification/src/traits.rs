pub mod estimator;
pub mod factor;
pub mod transform;

pub use estimator::{EstimatorError, FactorEstimator, ReturnsEstimator};
pub use factor::{FactorKind, SectorFactor, StyleFactor};
pub use transform::TransformError;

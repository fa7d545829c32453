pub mod attribution;
pub mod constraints;
pub mod error;
pub mod factor_returns;
pub mod wls;

pub use attribution::{AttributionResult, FactorContribution};
pub use constraints::{ConstraintType, SectorConstraint};
pub use error::ModelError;
pub use factor_returns::{DateOutcome, EstimatorConfig, FactorReturnsEstimator};
pub use wls::{WlsConfig, WlsFactorEstimator};

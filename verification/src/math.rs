pub mod constrained;
pub mod cross_section;
pub mod error;
pub mod least_squares;
pub mod linalg;
pub mod weights;
pub mod winsorize;

pub use constrained::{constrained_wls, ConstrainedWlsResult};
pub use cross_section::{CenterXSection, NormXSection};
pub use error::MathError;
pub use least_squares::{sum, weighted_least_squares, WlsResult};
pub use linalg::solve_linear_system;
pub use weights::exp_weights;
pub use winsorize::{winsorize, Winsorizer};

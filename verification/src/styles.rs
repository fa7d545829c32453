pub mod error;
pub mod momentum;
pub mod size;
pub mod value;

pub use error::StyleError;
pub use momentum::{MomentumConfig, MomentumFactor};
pub use size::{SizeConfig, SizeFactor};
pub use value::{ValueConfig, ValueFactor};

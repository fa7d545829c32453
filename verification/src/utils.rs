pub mod error;

pub use error::UtilsError;

pub mod asset;
pub mod date;
pub mod factor;
pub mod panel;
pub mod asset_returns;
pub mod scores;
pub mod weights;

pub use asset::{Asset, AssetId, Symbol};
pub use date::Date;
pub use factor::{FactorExposures, FactorName, FactorReturns};
pub use panel::{AssetObservation, CrossSection, FactorReturnRecord, Panel, ResidualRecord};
pub use asset_returns::{AssetReturns, ResidualReturns};
pub use scores::{AssetScores, FactorScores, SectorScores, StyleScores};
pub use weights::{ExponentialWeights, MarketCapWeights};

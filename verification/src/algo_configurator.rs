//! What a run is asked to trade.

use vstd::prelude::*;
use crate::enums::AlgoTypes;

verus! {

#[derive(Debug, Clone, Copy, PartialEq, Eq, Structural)]
pub struct HammerPatternAlgoConfiguration {}

#[derive(Debug, Clone, Copy, PartialEq, Eq, Structural)]
pub struct ShootingStarPatternAlgoConfiguration {}

#[derive(Debug, Clone, Copy, PartialEq, Eq, Structural)]
pub enum AlgoConfigurationMetadata {
    HammerPatternMetadata(HammerPatternAlgoConfiguration),
    ShootingStarPatternMetadata(ShootingStarPatternAlgoConfiguration),
}

#[derive(Debug, Clone, Copy, PartialEq, Eq, Structural)]
pub struct AlgoConfigurator {
    pub algo_type: AlgoTypes,
    pub algo_metadata: AlgoConfigurationMetadata,
}

impl AlgoConfigurator {
    /// The algorithm that the metadata is for.
    pub open spec fn metadata_algo(&self) -> AlgoTypes {
        match self.algo_metadata {
            AlgoConfigurationMetadata::HammerPatternMetadata(_) => AlgoTypes::HammerPatternAlgo,
            AlgoConfigurationMetadata::ShootingStarPatternMetadata(_) =>
                AlgoTypes::ShootingStarPatternAlgo,
        }
    }

    /// The algorithm whose backtest the configuration starts: the one that
    /// its metadata is for.
    pub fn initiate_the_backtest(&self) -> (algo_type: AlgoTypes)
        ensures
            algo_type == self.metadata_algo(),
    {
        match self.algo_metadata {
            AlgoConfigurationMetadata::HammerPatternMetadata(_) => AlgoTypes::HammerPatternAlgo,
            AlgoConfigurationMetadata::ShootingStarPatternMetadata(_) =>
                AlgoTypes::ShootingStarPatternAlgo,
        }
    }
}

} // verus!

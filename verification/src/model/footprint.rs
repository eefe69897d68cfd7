//! Display options for footprint (order-flow) charts.
use vstd::prelude::*;

verus! {

/// Color-mapping strategy for footprint cells.
#[derive(Debug, Clone, Copy, PartialEq, Eq, Hash, Structural)]
pub enum FootprintColorMode {
    /// Color by delta (green = buyer, red = seller)
    Delta,
    /// Color by volume intensity
    Volume,
    /// Color by imbalance
    Imbalance,
}

/// What numbers to show inside each footprint cell.
#[derive(Debug, Clone, Copy, PartialEq, Eq, Hash, Structural)]
pub enum FootprintDisplayMode {
    /// Left: bid volume, Right: ask volume
    BidAskSplit,
    /// Total volume per level only
    VolumeOnly,
    /// Delta (ask - bid) per level only
    DeltaOnly,
    /// Delta plus total volume
    DeltaPlusVolume,
}

impl Default for FootprintDisplayMode {
    fn default() -> (r: Self)
        ensures
            r == FootprintDisplayMode::BidAskSplit,
    {
        FootprintDisplayMode::BidAskSplit
    }
}

} // verus!

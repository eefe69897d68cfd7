//! Price display modes and auto-scale strategies.
//!
//! [`PriceDisplayMode`] controls how prices appear to the user (absolute,
//! percentage change, points, or basis points).  [`AutoScaleMode`] controls
//! how the visible price range is calculated.
use crate::text::{decimal, push_str, string_from_chars, u64_to_decimal};
use vstd::prelude::*;

verus! {

/// How to display price values on the chart
#[derive(Debug, Clone, Copy, PartialEq, Eq, Hash, Structural)]
pub enum PriceDisplayMode {
    /// Absolute price values (default)
    /// Example: $50,123.45
    Absolute,
    /// Percentage change from reference price
    /// Example: +2.34% or -1.56%
    Percentage {
        /// Reference price for percentage calculation
        /// If None, uses first visible bar's close price
        reference_price: Option<i64>,
    },
    /// Points change from reference price
    /// Example: +150 pts or -75 pts
    Points {
        /// Reference price for points calculation
        reference_price: Option<i64>,
    },
    /// Basis points (1/100 of 1%)
    /// Example: +234 bps or -156 bps
    BasisPoints { reference_price: Option<i64> },
}

impl PriceDisplayMode {
    pub open spec fn spec_display_name(self) -> Seq<char> {
        match self {
            PriceDisplayMode::Absolute => "Absolute"@,
            PriceDisplayMode::Percentage { .. } => "Percentage"@,
            PriceDisplayMode::Points { .. } => "Points"@,
            PriceDisplayMode::BasisPoints { .. } => "Basis Points"@,
        }
    }

    /// Text shown when this value is displayed.
    pub fn to_string(&self) -> (r: String)
        ensures
            r@ == self.spec_display_name(),
    {
        match self {
            PriceDisplayMode::Absolute => "Absolute".to_owned(),
            PriceDisplayMode::Percentage { .. } => "Percentage".to_owned(),
            PriceDisplayMode::Points { .. } => "Points".to_owned(),
            PriceDisplayMode::BasisPoints { .. } => "Basis Points".to_owned(),
        }
    }
}

impl Default for PriceDisplayMode {
    fn default() -> (r: Self)
        ensures
            r == PriceDisplayMode::Absolute,
    {
        PriceDisplayMode::Absolute
    }
}

/// Auto-scale strategy for price axis
#[derive(Debug, Clone, Copy, PartialEq, Eq, Hash, Structural)]
pub enum AutoScaleMode {
    /// Scale to fit all data in the dataset
    AllData,
    /// Scale to fit only visible data (default)
    VisibleData,
    /// Scale to fit visible data with padding
    VisibleDataWithPadding {
        /// Padding percentage (0-100): 10 means 10% padding on top and bottom
        padding_percent: u8,
    },
    /// Custom fixed range
    Custom { min: i64, max: i64 },
    /// Lock current range (no auto-scaling)
    Locked,
}

impl AutoScaleMode {
    pub open spec fn spec_display_name(self) -> Seq<char> {
        match self {
            AutoScaleMode::AllData => "All Data"@,
            AutoScaleMode::VisibleData => "Visible Data"@,
            AutoScaleMode::VisibleDataWithPadding { padding_percent } => "Visible + "@ + decimal(
                padding_percent as nat,
            ) + "% padding"@,
            AutoScaleMode::Custom { .. } => "Custom Range"@,
            AutoScaleMode::Locked => "Locked"@,
        }
    }

    /// Create visible data mode with standard padding (10%)
    pub fn visible_with_standard_padding() -> (r: Self)
        ensures
            r == (AutoScaleMode::VisibleDataWithPadding { padding_percent: 10 }),
    {
        AutoScaleMode::VisibleDataWithPadding { padding_percent: 10 }
    }

    /// Text shown when this value is displayed.
    pub fn to_string(&self) -> (r: String)
        ensures
            r@ == self.spec_display_name(),
    {
        match self {
            AutoScaleMode::AllData => "All Data".to_owned(),
            AutoScaleMode::VisibleData => "Visible Data".to_owned(),
            AutoScaleMode::VisibleDataWithPadding { padding_percent } => {
                let mut r = "Visible + ".to_owned();
                let digits = string_from_chars(&u64_to_decimal(*padding_percent as u64));
                push_str(&mut r, digits.as_str());
                push_str(&mut r, "% padding");
                r
            },
            AutoScaleMode::Custom { .. } => "Custom Range".to_owned(),
            AutoScaleMode::Locked => "Locked".to_owned(),
        }
    }
}

impl Default for AutoScaleMode {
    fn default() -> (r: Self)
        ensures
            r == AutoScaleMode::VisibleData,
    {
        AutoScaleMode::VisibleData
    }
}

} // verus!

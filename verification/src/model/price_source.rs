//! Price source selection for chart series.
//!
//! Defines which price value to use for line-based chart calculations.
use vstd::prelude::*;

verus! {

/// Price source for series calculations
#[derive(Debug, Clone, Copy, PartialEq, Eq, Hash, Structural)]
pub enum PriceSource {
    /// Opening price
    Open,
    /// Highest price
    High,
    /// Lowest price
    Low,
    /// Closing price (most common)
    Close,
    /// (High + Low) / 2
    HL2,
    /// (High + Low + Close) / 3
    HLC3,
    /// (Open + High + Low + Close) / 4
    OHLC4,
}

impl PriceSource {
    pub open spec fn spec_label(self) -> Seq<char> {
        match self {
            PriceSource::Open => "Open"@,
            PriceSource::High => "High"@,
            PriceSource::Low => "Low"@,
            PriceSource::Close => "Close"@,
            PriceSource::HL2 => "HL/2"@,
            PriceSource::HLC3 => "HLC/3"@,
            PriceSource::OHLC4 => "OHLC/4"@,
        }
    }

    /// Display label for the price source
    pub fn label(&self) -> (r: &'static str)
        ensures
            r@ == self.spec_label(),
    {
        match self {
            PriceSource::Open => "Open",
            PriceSource::High => "High",
            PriceSource::Low => "Low",
            PriceSource::Close => "Close",
            PriceSource::HL2 => "HL/2",
            PriceSource::HLC3 => "HLC/3",
            PriceSource::OHLC4 => "OHLC/4",
        }
    }

    pub open spec fn spec_all() -> Seq<PriceSource> {
        seq![
            PriceSource::Open, PriceSource::High, PriceSource::Low, PriceSource::Close,
            PriceSource::HL2, PriceSource::HLC3, PriceSource::OHLC4,
        ]
    }

    /// All available price sources
    pub fn all() -> (r: [Self; 7])
        ensures
            r@ == Self::spec_all(),
            forall|x: PriceSource| #[trigger] r@.contains(x),
            r@.no_duplicates(),
    {
        proof {
            let s = Self::spec_all();
            assert forall|x: PriceSource| #[trigger] s.contains(x) by {
                match x {
                    PriceSource::Open => assert(s[0] == x),
                    PriceSource::High => assert(s[1] == x),
                    PriceSource::Low => assert(s[2] == x),
                    PriceSource::Close => assert(s[3] == x),
                    PriceSource::HL2 => assert(s[4] == x),
                    PriceSource::HLC3 => assert(s[5] == x),
                    PriceSource::OHLC4 => assert(s[6] == x),
                }
            }
        }
        let r = [
            Self::Open,
            Self::High,
            Self::Low,
            Self::Close,
            Self::HL2,
            Self::HLC3,
            Self::OHLC4,
        ];
        assert(r@ =~= Self::spec_all());
        r
    }
}

impl Default for PriceSource {
    fn default() -> (r: Self)
        ensures
            r == PriceSource::Close,
    {
        PriceSource::Close
    }
}

} // verus!

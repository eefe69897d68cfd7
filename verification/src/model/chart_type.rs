//! Chart Type Definitions
//!
//! Defines all chart visualization types supported by the charting library.
//! This module provides the canonical definition of chart types, their metadata,
//! categories, and configuration requirements.
//!
//! # Chart Types
//! - Standard: Bars, Candles, Hollow Candles, Volume Candles
//! - Line-based: Line, Line with Markers, Step Line
//! - Area-based: Area, HLC Area, Baseline
//! - Japanese: Renko, Kagi, Line Break, Heikin-Ashi
//! - Range-based: Range Bars, Point & Figure
//! - Advanced: Volume Footprint, TPO, Session Volume, High-Low
use crate::model::enums::ChartStyle;
use vstd::prelude::*;

verus! {

/// Categories for grouping chart types in the UI
#[derive(Debug, Clone, Copy, PartialEq, Eq, Hash, Structural)]
pub enum ChartTypeCategory {
    /// Standard OHLC visualizations
    Standard,
    /// Line-based charts
    LineBased,
    /// Area/filled charts
    AreaBased,
    /// Japanese charting techniques
    Japanese,
    /// Range/price-based charts
    RangeBased,
    /// Advanced professional charts
    Advanced,
}

impl ChartTypeCategory {
    pub open spec fn spec_name(self) -> Seq<char> {
        match self {
            ChartTypeCategory::Standard => "Standard"@,
            ChartTypeCategory::LineBased => "Line"@,
            ChartTypeCategory::AreaBased => "Area"@,
            ChartTypeCategory::Japanese => "Japanese"@,
            ChartTypeCategory::RangeBased => "Range"@,
            ChartTypeCategory::Advanced => "Advanced"@,
        }
    }

    pub open spec fn spec_all() -> Seq<ChartTypeCategory> {
        seq![ChartTypeCategory::Standard, ChartTypeCategory::LineBased, ChartTypeCategory::AreaBased, ChartTypeCategory::Japanese, ChartTypeCategory::RangeBased, ChartTypeCategory::Advanced]
    }

    /// All categories in display order
    pub fn all() -> (r: &'static [ChartTypeCategory])
        ensures
            r@ == Self::spec_all(),
            forall|x: ChartTypeCategory| #[trigger] r@.contains(x),
            r@.no_duplicates(),
    {
        proof {
            let s = Self::spec_all();
            assert forall|x: ChartTypeCategory| #[trigger] s.contains(x) by {
                match x {
                    ChartTypeCategory::Standard => assert(s[0] == x),
                    ChartTypeCategory::LineBased => assert(s[1] == x),
                    ChartTypeCategory::AreaBased => assert(s[2] == x),
                    ChartTypeCategory::Japanese => assert(s[3] == x),
                    ChartTypeCategory::RangeBased => assert(s[4] == x),
                    ChartTypeCategory::Advanced => assert(s[5] == x),
                }
            }
        }
        &[
            ChartTypeCategory::Standard,
            ChartTypeCategory::LineBased,
            ChartTypeCategory::AreaBased,
            ChartTypeCategory::Japanese,
            ChartTypeCategory::RangeBased,
            ChartTypeCategory::Advanced,
        ]
    }

    /// Display name for the category
    pub fn name(&self) -> (r: &'static str)
        ensures
            r@ == self.spec_name(),
    {
        match self {
            ChartTypeCategory::Standard => "Standard",
            ChartTypeCategory::LineBased => "Line",
            ChartTypeCategory::AreaBased => "Area",
            ChartTypeCategory::Japanese => "Japanese",
            ChartTypeCategory::RangeBased => "Range",
            ChartTypeCategory::Advanced => "Advanced",
        }
    }
}

/// Chart visualization types
///
/// Each variant represents a distinct way to visualize OHLCV data.
/// The default is `Candles` (Japanese candlesticks).
#[derive(Debug, Clone, Copy, PartialEq, Eq, Hash, Structural)]
pub enum ChartType {
    /// Traditional OHLC bars with tick marks
    Bars,
    /// Japanese candlesticks (default)
    Candles,
    /// Hollow when close > open, filled when close < open
    HollowCandles,
    /// Candle width proportional to volume
    VolumeCandles,
    /// Simple close price line
    Line,
    /// Line with circular markers at each data point
    LineWithMarkers,
    /// Stepped line (horizontal then vertical)
    StepLine,
    /// Filled area under close price line
    Area,
    /// High-Low-Close area chart
    HlcArea,
    /// Baseline comparison chart with colored fill
    Baseline,
    /// High-Low range visualization
    HighLow,
    /// Range bars (price-based, time-independent)
    Range,
    /// Renko bricks (price movement only)
    Renko,
    /// Kagi chart (trend reversals)
    Kagi,
    /// Three line break chart
    LineBreak,
    /// Heikin-Ashi candles (smoothed)
    Heikin,
    /// Point and Figure (X and O columns)
    PointAndFigure,
    /// Volume footprint / order flow
    VolumeFootprint,
    /// Time Price Opportunity (Market Profile)
    TimePriceOpportunity,
    /// Volume aggregated by session
    SessionVolume,
}

impl ChartType {
    pub open spec fn spec_name(self) -> Seq<char> {
        match self {
            ChartType::Bars => "Bars"@,
            ChartType::Candles => "Candles"@,
            ChartType::HollowCandles => "Hollow candles"@,
            ChartType::VolumeCandles => "Volume candles"@,
            ChartType::Line => "Line"@,
            ChartType::LineWithMarkers => "Line with markers"@,
            ChartType::StepLine => "Step line"@,
            ChartType::Area => "Area"@,
            ChartType::HlcArea => "HLC area"@,
            ChartType::Baseline => "Baseline"@,
            ChartType::HighLow => "High-low"@,
            ChartType::Range => "Range"@,
            ChartType::Renko => "Renko"@,
            ChartType::Kagi => "Kagi"@,
            ChartType::LineBreak => "Line break"@,
            ChartType::Heikin => "Heikin Ashi"@,
            ChartType::PointAndFigure => "Point & Figure"@,
            ChartType::VolumeFootprint => "Volume footprint"@,
            ChartType::TimePriceOpportunity => "Time Price Opportunity"@,
            ChartType::SessionVolume => "Session volume"@,
        }
    }

    pub open spec fn spec_description(self) -> Seq<char> {
        match self {
            ChartType::Bars => "OHLC bars with tick marks"@,
            ChartType::Candles => "Japanese candlesticks"@,
            ChartType::HollowCandles => "Hollow when close > open"@,
            ChartType::VolumeCandles => "Width based on volume"@,
            ChartType::Line => "Close price line"@,
            ChartType::LineWithMarkers => "Line with data points"@,
            ChartType::StepLine => "Stepped line chart"@,
            ChartType::Area => "Filled area chart"@,
            ChartType::HlcArea => "High-Low-Close area"@,
            ChartType::Baseline => "Baseline comparison"@,
            ChartType::HighLow => "High-Low range"@,
            ChartType::Range => "Range bars"@,
            ChartType::Renko => "Renko bricks"@,
            ChartType::Kagi => "Kagi chart"@,
            ChartType::LineBreak => "Three line break"@,
            ChartType::Heikin => "Heikin-Ashi candles"@,
            ChartType::PointAndFigure => "X and O chart"@,
            ChartType::VolumeFootprint => "Order flow analysis"@,
            ChartType::TimePriceOpportunity => "TPO / Market Profile"@,
            ChartType::SessionVolume => "Volume by session"@,
        }
    }

    pub open spec fn spec_all() -> Seq<ChartType> {
        seq![ChartType::Bars, ChartType::Candles, ChartType::HollowCandles, ChartType::VolumeCandles, ChartType::Line, ChartType::LineWithMarkers, ChartType::StepLine, ChartType::Area, ChartType::HlcArea, ChartType::Baseline, ChartType::HighLow, ChartType::VolumeFootprint, ChartType::TimePriceOpportunity, ChartType::SessionVolume, ChartType::LineBreak, ChartType::Kagi, ChartType::Range, ChartType::PointAndFigure, ChartType::Renko, ChartType::Heikin]
    }

    /// All chart types in display order
    pub fn all() -> (r: &'static [ChartType])
        ensures
            r@ == Self::spec_all(),
            forall|x: ChartType| #[trigger] r@.contains(x),
            r@.no_duplicates(),
    {
        proof {
            let s = Self::spec_all();
            assert forall|x: ChartType| #[trigger] s.contains(x) by {
                match x {
                    ChartType::Bars => assert(s[0] == x),
                    ChartType::Candles => assert(s[1] == x),
                    ChartType::HollowCandles => assert(s[2] == x),
                    ChartType::VolumeCandles => assert(s[3] == x),
                    ChartType::Line => assert(s[4] == x),
                    ChartType::LineWithMarkers => assert(s[5] == x),
                    ChartType::StepLine => assert(s[6] == x),
                    ChartType::Area => assert(s[7] == x),
                    ChartType::HlcArea => assert(s[8] == x),
                    ChartType::Baseline => assert(s[9] == x),
                    ChartType::HighLow => assert(s[10] == x),
                    ChartType::VolumeFootprint => assert(s[11] == x),
                    ChartType::TimePriceOpportunity => assert(s[12] == x),
                    ChartType::SessionVolume => assert(s[13] == x),
                    ChartType::LineBreak => assert(s[14] == x),
                    ChartType::Kagi => assert(s[15] == x),
                    ChartType::Range => assert(s[16] == x),
                    ChartType::PointAndFigure => assert(s[17] == x),
                    ChartType::Renko => assert(s[18] == x),
                    ChartType::Heikin => assert(s[19] == x),
                }
            }
        }
        &[
            ChartType::Bars,
            ChartType::Candles,
            ChartType::HollowCandles,
            ChartType::VolumeCandles,
            ChartType::Line,
            ChartType::LineWithMarkers,
            ChartType::StepLine,
            ChartType::Area,
            ChartType::HlcArea,
            ChartType::Baseline,
            ChartType::HighLow,
            ChartType::VolumeFootprint,
            ChartType::TimePriceOpportunity,
            ChartType::SessionVolume,
            ChartType::LineBreak,
            ChartType::Kagi,
            ChartType::Range,
            ChartType::PointAndFigure,
            ChartType::Renko,
            ChartType::Heikin,
        ]
    }

    /// User-facing display name
    pub fn name(&self) -> (r: &'static str)
        ensures
            r@ == self.spec_name(),
    {
        match self {
            ChartType::Bars => "Bars",
            ChartType::Candles => "Candles",
            ChartType::HollowCandles => "Hollow candles",
            ChartType::VolumeCandles => "Volume candles",
            ChartType::Line => "Line",
            ChartType::LineWithMarkers => "Line with markers",
            ChartType::StepLine => "Step line",
            ChartType::Area => "Area",
            ChartType::HlcArea => "HLC area",
            ChartType::Baseline => "Baseline",
            ChartType::HighLow => "High-low",
            ChartType::Range => "Range",
            ChartType::Renko => "Renko",
            ChartType::Kagi => "Kagi",
            ChartType::LineBreak => "Line break",
            ChartType::Heikin => "Heikin Ashi",
            ChartType::PointAndFigure => "Point & Figure",
            ChartType::VolumeFootprint => "Volume footprint",
            ChartType::TimePriceOpportunity => "Time Price Opportunity",
            ChartType::SessionVolume => "Session volume",
        }
    }

    /// Technical description for tooltips
    pub fn description(&self) -> (r: &'static str)
        ensures
            r@ == self.spec_description(),
    {
        match self {
            ChartType::Bars => "OHLC bars with tick marks",
            ChartType::Candles => "Japanese candlesticks",
            ChartType::HollowCandles => "Hollow when close > open",
            ChartType::VolumeCandles => "Width based on volume",
            ChartType::Line => "Close price line",
            ChartType::LineWithMarkers => "Line with data points",
            ChartType::StepLine => "Stepped line chart",
            ChartType::Area => "Filled area chart",
            ChartType::HlcArea => "High-Low-Close area",
            ChartType::Baseline => "Baseline comparison",
            ChartType::HighLow => "High-Low range",
            ChartType::Range => "Range bars",
            ChartType::Renko => "Renko bricks",
            ChartType::Kagi => "Kagi chart",
            ChartType::LineBreak => "Three line break",
            ChartType::Heikin => "Heikin-Ashi candles",
            ChartType::PointAndFigure => "X and O chart",
            ChartType::VolumeFootprint => "Order flow analysis",
            ChartType::TimePriceOpportunity => "TPO / Market Profile",
            ChartType::SessionVolume => "Volume by session",
        }
    }

    /// Text shown when this value is displayed.
    pub fn to_string(&self) -> (r: String)
        ensures
            r@ == self.spec_name(),
    {
        self.name().to_owned()
    }

    /// The chart type that a wire-format style maps to.
    pub open spec fn spec_from_style(style: ChartStyle) -> ChartType {
        match style {
            ChartStyle::Bar => ChartType::Bars,
            ChartStyle::Candle => ChartType::Candles,
            ChartStyle::Line => ChartType::Line,
            ChartStyle::Area => ChartType::Area,
            ChartStyle::Renko => ChartType::Renko,
            ChartStyle::Kagi => ChartType::Kagi,
            ChartStyle::PnF => ChartType::PointAndFigure,
            ChartStyle::LineBreak => ChartType::LineBreak,
            ChartStyle::HeikinAshi => ChartType::Heikin,
            ChartStyle::HollowCandle => ChartType::HollowCandles,
            ChartStyle::Baseline => ChartType::Baseline,
            ChartStyle::HighLow => ChartType::HighLow,
            ChartStyle::Column => ChartType::Bars,
            ChartStyle::LineWithMarkers => ChartType::LineWithMarkers,
            ChartStyle::Stepline => ChartType::StepLine,
            ChartStyle::HLCArea => ChartType::HlcArea,
            ChartStyle::VolCandle => ChartType::VolumeCandles,
            ChartStyle::HLCBars => ChartType::HighLow,
        }
    }

    pub open spec fn spec_category(self) -> ChartTypeCategory {
        match self {
            ChartType::Bars
            | ChartType::Candles
            | ChartType::HollowCandles
            | ChartType::VolumeCandles => ChartTypeCategory::Standard,
            ChartType::Line
            | ChartType::LineWithMarkers
            | ChartType::StepLine => ChartTypeCategory::LineBased,
            ChartType::Area
            | ChartType::HlcArea
            | ChartType::Baseline => ChartTypeCategory::AreaBased,
            ChartType::Renko
            | ChartType::Kagi
            | ChartType::LineBreak
            | ChartType::Heikin => ChartTypeCategory::Japanese,
            ChartType::Range
            | ChartType::PointAndFigure => ChartTypeCategory::RangeBased,
            ChartType::VolumeFootprint
            | ChartType::TimePriceOpportunity
            | ChartType::SessionVolume
            | ChartType::HighLow => ChartTypeCategory::Advanced,
        }
    }

    pub open spec fn spec_uses_ohlc(self) -> bool {
        matches!(
            self,
            ChartType::Bars
                | ChartType::Candles
                | ChartType::HollowCandles
                | ChartType::VolumeCandles
                | ChartType::HlcArea
                | ChartType::HighLow
                | ChartType::Renko
                | ChartType::Kagi
                | ChartType::LineBreak
                | ChartType::Heikin
                | ChartType::Range
                | ChartType::PointAndFigure
                | ChartType::VolumeFootprint
                | ChartType::TimePriceOpportunity
                | ChartType::SessionVolume
        )
    }

    pub open spec fn spec_supports_volume(self) -> bool {
        !matches!(
            self,
            ChartType::Renko
                | ChartType::Kagi
                | ChartType::PointAndFigure
                | ChartType::Range
                | ChartType::LineBreak
                | ChartType::VolumeFootprint
                | ChartType::SessionVolume
        )
    }

    pub open spec fn spec_requires_parameters(self) -> bool {
        matches!(
            self,
            ChartType::Renko
                | ChartType::Kagi
                | ChartType::Range
                | ChartType::PointAndFigure
                | ChartType::LineBreak
                | ChartType::Baseline
        )
    }

    pub open spec fn spec_is_time_independent(self) -> bool {
        matches!(
            self,
            ChartType::Renko
                | ChartType::Kagi
                | ChartType::Range
                | ChartType::PointAndFigure
                | ChartType::LineBreak
        )
    }

    pub open spec fn spec_transforms_data(self) -> bool {
        matches!(
            self,
            ChartType::Renko
                | ChartType::Kagi
                | ChartType::Range
                | ChartType::PointAndFigure
                | ChartType::LineBreak
                | ChartType::Heikin
        )
    }

    pub open spec fn spec_to_chart_style(self) -> Option<ChartStyle> {
        match self {
            ChartType::Bars => Some(ChartStyle::Bar),
            ChartType::Candles => Some(ChartStyle::Candle),
            ChartType::HollowCandles => Some(ChartStyle::HollowCandle),
            ChartType::VolumeCandles => Some(ChartStyle::VolCandle),
            ChartType::Line => Some(ChartStyle::Line),
            ChartType::LineWithMarkers => Some(ChartStyle::LineWithMarkers),
            ChartType::StepLine => Some(ChartStyle::Stepline),
            ChartType::Area => Some(ChartStyle::Area),
            ChartType::HlcArea => Some(ChartStyle::HLCArea),
            ChartType::Baseline => Some(ChartStyle::Baseline),
            ChartType::HighLow => Some(ChartStyle::HighLow),
            ChartType::Renko => Some(ChartStyle::Renko),
            ChartType::Kagi => Some(ChartStyle::Kagi),
            ChartType::LineBreak => Some(ChartStyle::LineBreak),
            ChartType::Heikin => Some(ChartStyle::HeikinAshi),
            ChartType::PointAndFigure => Some(ChartStyle::PnF),
            ChartType::Range
            | ChartType::VolumeFootprint
            | ChartType::TimePriceOpportunity
            | ChartType::SessionVolume => None,
        }
    }

    /// Alias for name() for string compatibility
    pub fn as_str(&self) -> (r: &'static str)
        ensures
            r@ == self.spec_name(),
    {
        self.name()
    }

    /// Alias for description() for compatibility
    pub fn desc(&self) -> (r: &'static str)
        ensures
            r@ == self.spec_description(),
    {
        self.description()
    }

    /// Category this chart type belongs to
    pub fn category(&self) -> (r: ChartTypeCategory)
        ensures
            r == self.spec_category(),
    {
        match self {
            ChartType::Bars
            | ChartType::Candles
            | ChartType::HollowCandles
            | ChartType::VolumeCandles => ChartTypeCategory::Standard,
            ChartType::Line
            | ChartType::LineWithMarkers
            | ChartType::StepLine => ChartTypeCategory::LineBased,
            ChartType::Area
            | ChartType::HlcArea
            | ChartType::Baseline => ChartTypeCategory::AreaBased,
            ChartType::Renko
            | ChartType::Kagi
            | ChartType::LineBreak
            | ChartType::Heikin => ChartTypeCategory::Japanese,
            ChartType::Range
            | ChartType::PointAndFigure => ChartTypeCategory::RangeBased,
            ChartType::VolumeFootprint
            | ChartType::TimePriceOpportunity
            | ChartType::SessionVolume
            | ChartType::HighLow => ChartTypeCategory::Advanced,
        }
    }

    /// Get all chart types in a specific category, in display order.
    pub fn in_category(category: ChartTypeCategory) -> (r: Vec<ChartType>)
        ensures
            r@ == Self::spec_all().filter(|ct: ChartType| ct.spec_category() == category),
    {
        let all = Self::all();
        let ghost pred = |ct: ChartType| ct.spec_category() == category;
        let mut r: Vec<ChartType> = Vec::new();
        let mut i: usize = 0;
        while i < all.len()
            invariant
                all@ == Self::spec_all(),
                pred == (|ct: ChartType| ct.spec_category() == category),
                i <= all@.len(),
                r@ == all@.take(i as int).filter(pred),
            decreases all@.len() - i,
        {
            let ct = all[i];
            if ct.category() == category {
                r.push(ct);
            }
            proof {
                reveal_with_fuel(Seq::<_>::filter, 1);
                assert(all@.take(i + 1).drop_last() =~= all@.take(i as int));
                assert(all@.take(i + 1).last() == ct);
            }
            i = i + 1;
        }
        assert(all@.take(all@.len() as int) =~= all@);
        r
    }

    /// Whether this chart type uses OHLC data (vs single value)
    pub fn uses_ohlc(&self) -> (r: bool)
        ensures
            r == self.spec_uses_ohlc(),
    {
        matches!(
            self,
            Self::Bars
                | Self::Candles
                | Self::HollowCandles
                | Self::VolumeCandles
                | Self::HlcArea
                | Self::HighLow
                | Self::Renko
                | Self::Kagi
                | Self::LineBreak
                | Self::Heikin
                | Self::Range
                | Self::PointAndFigure
                | Self::VolumeFootprint
                | Self::TimePriceOpportunity
                | Self::SessionVolume
        )
    }

    /// Whether this chart type supports volume display.
    ///
    /// Time-independent charts do not align with volume, and the volume
    /// footprint and session volume charts are themselves volume displays.
    pub fn supports_volume(&self) -> (r: bool)
        ensures
            r == self.spec_supports_volume(),
    {
        !matches!(
            self,
            Self::Renko
                | Self::Kagi
                | Self::PointAndFigure
                | Self::Range
                | Self::LineBreak
                | Self::VolumeFootprint
                | Self::SessionVolume
        )
    }

    /// Whether this chart type requires special parameters
    pub fn requires_parameters(&self) -> (r: bool)
        ensures
            r == self.spec_requires_parameters(),
    {
        matches!(
            self,
            Self::Renko
                | Self::Kagi
                | Self::Range
                | Self::PointAndFigure
                | Self::LineBreak
                | Self::Baseline
        )
    }

    /// Whether this chart type is time-independent
    pub fn is_time_independent(&self) -> (r: bool)
        ensures
            r == self.spec_is_time_independent(),
    {
        matches!(
            self,
            Self::Renko
                | Self::Kagi
                | Self::Range
                | Self::PointAndFigure
                | Self::LineBreak
        )
    }

    /// Whether this chart type transforms the input data
    pub fn transforms_data(&self) -> (r: bool)
        ensures
            r == self.spec_transforms_data(),
    {
        matches!(
            self,
            Self::Renko
                | Self::Kagi
                | Self::Range
                | Self::PointAndFigure
                | Self::LineBreak
                | Self::Heikin
        )
    }

    /// Convert to `ChartStyle`, if a mapping exists.
    ///
    /// Domain-only types (VolumeFootprint, TimePriceOpportunity, SessionVolume, Range)
    /// have no wire-format equivalent and return `None`.
    pub fn to_chart_style(&self) -> (r: Option<ChartStyle>)
        ensures
            r == self.spec_to_chart_style(),
    {
        match self {
            ChartType::Bars => Some(ChartStyle::Bar),
            ChartType::Candles => Some(ChartStyle::Candle),
            ChartType::HollowCandles => Some(ChartStyle::HollowCandle),
            ChartType::VolumeCandles => Some(ChartStyle::VolCandle),
            ChartType::Line => Some(ChartStyle::Line),
            ChartType::LineWithMarkers => Some(ChartStyle::LineWithMarkers),
            ChartType::StepLine => Some(ChartStyle::Stepline),
            ChartType::Area => Some(ChartStyle::Area),
            ChartType::HlcArea => Some(ChartStyle::HLCArea),
            ChartType::Baseline => Some(ChartStyle::Baseline),
            ChartType::HighLow => Some(ChartStyle::HighLow),
            ChartType::Renko => Some(ChartStyle::Renko),
            ChartType::Kagi => Some(ChartStyle::Kagi),
            ChartType::LineBreak => Some(ChartStyle::LineBreak),
            ChartType::Heikin => Some(ChartStyle::HeikinAshi),
            ChartType::PointAndFigure => Some(ChartStyle::PnF),
            ChartType::Range
            | ChartType::VolumeFootprint
            | ChartType::TimePriceOpportunity
            | ChartType::SessionVolume => None,
        }
    }
}

impl Default for ChartType {
    fn default() -> (r: Self)
        ensures
            r == ChartType::Candles,
    {
        ChartType::Candles
    }
}

/// Every wire-format `ChartStyle` maps to a domain `ChartType`.
///
/// `Column` maps to `Bars` and `HLCBars` to `HighLow`, the closest matches.
impl From<ChartStyle> for ChartType {
    fn from(style: ChartStyle) -> (r: Self) {
        match style {
            ChartStyle::Bar => ChartType::Bars,
            ChartStyle::Candle => ChartType::Candles,
            ChartStyle::Line => ChartType::Line,
            ChartStyle::Area => ChartType::Area,
            ChartStyle::Renko => ChartType::Renko,
            ChartStyle::Kagi => ChartType::Kagi,
            ChartStyle::PnF => ChartType::PointAndFigure,
            ChartStyle::LineBreak => ChartType::LineBreak,
            ChartStyle::HeikinAshi => ChartType::Heikin,
            ChartStyle::HollowCandle => ChartType::HollowCandles,
            ChartStyle::Baseline => ChartType::Baseline,
            ChartStyle::HighLow => ChartType::HighLow,
            ChartStyle::Column => ChartType::Bars,
            ChartStyle::LineWithMarkers => ChartType::LineWithMarkers,
            ChartStyle::Stepline => ChartType::StepLine,
            ChartStyle::HLCArea => ChartType::HlcArea,
            ChartStyle::VolCandle => ChartType::VolumeCandles,
            ChartStyle::HLCBars => ChartType::HighLow,
        }
    }
}

impl vstd::std_specs::convert::FromSpecImpl<ChartStyle> for ChartType {
    open spec fn obeys_from_spec() -> bool {
        true
    }

    open spec fn from_spec(style: ChartStyle) -> Self {
        ChartType::spec_from_style(style)
    }
}

/// Converting a chart type to its wire-format style and back gives the same chart type.
pub proof fn chart_style_round_trip(ct: ChartType)
    requires
        ct.spec_to_chart_style() is Some,
    ensures
        ChartType::spec_from_style(ct.spec_to_chart_style()->Some_0) == ct,
{
}

/// A chart type has no wire-format style exactly when it is one of the domain-only
/// types (range bars, volume footprint, TPO and session volume).
pub proof fn chart_style_missing_only_for_domain_types(ct: ChartType)
    ensures
        ct.spec_to_chart_style() is None <==> matches!(
            ct,
            ChartType::Range | ChartType::VolumeFootprint | ChartType::TimePriceOpportunity
                | ChartType::SessionVolume
        ),
{
}

/// Time-independent chart types all transform their input, need parameters,
/// and do not show volume.
pub proof fn time_independent_implications(ct: ChartType)
    requires
        ct.spec_is_time_independent(),
    ensures
        ct.spec_transforms_data(),
        ct.spec_requires_parameters(),
        !ct.spec_supports_volume(),
        ct.spec_uses_ohlc(),
{
}

/// Every chart type listed by `all` appears in the listing of its own category.
pub proof fn category_listing_covers(ct: ChartType)
    ensures
        ChartType::spec_all().filter(|c: ChartType| c.spec_category() == ct.spec_category()).contains(ct),
{
    let pred = |c: ChartType| c.spec_category() == ct.spec_category();
    let s = ChartType::spec_all();
    match ct {
        ChartType::Bars => s.lemma_filter_contains(pred, 0),
        ChartType::Candles => s.lemma_filter_contains(pred, 1),
        ChartType::HollowCandles => s.lemma_filter_contains(pred, 2),
        ChartType::VolumeCandles => s.lemma_filter_contains(pred, 3),
        ChartType::Line => s.lemma_filter_contains(pred, 4),
        ChartType::LineWithMarkers => s.lemma_filter_contains(pred, 5),
        ChartType::StepLine => s.lemma_filter_contains(pred, 6),
        ChartType::Area => s.lemma_filter_contains(pred, 7),
        ChartType::HlcArea => s.lemma_filter_contains(pred, 8),
        ChartType::Baseline => s.lemma_filter_contains(pred, 9),
        ChartType::HighLow => s.lemma_filter_contains(pred, 10),
        ChartType::VolumeFootprint => s.lemma_filter_contains(pred, 11),
        ChartType::TimePriceOpportunity => s.lemma_filter_contains(pred, 12),
        ChartType::SessionVolume => s.lemma_filter_contains(pred, 13),
        ChartType::LineBreak => s.lemma_filter_contains(pred, 14),
        ChartType::Kagi => s.lemma_filter_contains(pred, 15),
        ChartType::Range => s.lemma_filter_contains(pred, 16),
        ChartType::PointAndFigure => s.lemma_filter_contains(pred, 17),
        ChartType::Renko => s.lemma_filter_contains(pred, 18),
        ChartType::Heikin => s.lemma_filter_contains(pred, 19),
    }
}

} // verus!

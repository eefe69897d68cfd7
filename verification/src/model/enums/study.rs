//! Study (indicator) related enums
//!
//! Study plot types, input types, display targets, and plot styles
//! for indicator/study configuration.
use vstd::prelude::*;

verus! {

/// Study plot type — defines how a study output is rendered
#[derive(Debug, Clone, Copy, PartialEq, Eq, Hash, Structural)]
pub enum StudyPlotType {
    /// Standard line plot
    Line,
    /// Histogram bars
    Histogram,
    /// Arrow markers (up/down)
    Arrow,
    /// Column (vertical bar from zero)
    Column,
    /// Area (filled below line)
    Area,
    /// Circles / dots
    Circles,
    /// Line with breaks (NaN gaps)
    LineWithBreaks,
    /// Area with breaks
    AreaWithBreaks,
    /// Step line (horizontal then vertical)
    StepLine,
    /// Step line with diamonds at corners
    StepLineDiamond,
    /// Cross markers
    Cross,
    /// OHLC bars (for multi-output studies)
    OhlcBars,
    /// Candlestick (for multi-output studies)
    OhlcCandles,
    /// Color-coded line
    ColorLine,
    /// Color-coded histogram
    ColorHistogram,
    /// Color-coded column
    ColorColumn,
    /// Color-coded area
    ColorArea,
    /// Shape markers (various shapes)
    Shapes,
}

impl StudyPlotType {
    pub open spec fn spec_name(self) -> Seq<char> {
        match self {
            StudyPlotType::Line => "line"@,
            StudyPlotType::Histogram => "histogram"@,
            StudyPlotType::Arrow => "arrow"@,
            StudyPlotType::Column => "column"@,
            StudyPlotType::Area => "area"@,
            StudyPlotType::Circles => "circles"@,
            StudyPlotType::LineWithBreaks => "line_with_breaks"@,
            StudyPlotType::AreaWithBreaks => "area_with_breaks"@,
            StudyPlotType::StepLine => "step_line"@,
            StudyPlotType::StepLineDiamond => "step_line_diamond"@,
            StudyPlotType::Cross => "cross"@,
            StudyPlotType::OhlcBars => "ohlc_bars"@,
            StudyPlotType::OhlcCandles => "ohlc_candles"@,
            StudyPlotType::ColorLine => "color_line"@,
            StudyPlotType::ColorHistogram => "color_histogram"@,
            StudyPlotType::ColorColumn => "color_column"@,
            StudyPlotType::ColorArea => "color_area"@,
            StudyPlotType::Shapes => "shapes"@,
        }
    }

    pub open spec fn spec_display_name(self) -> Seq<char> {
        match self {
            StudyPlotType::Line => "Line"@,
            StudyPlotType::Histogram => "Histogram"@,
            StudyPlotType::Arrow => "Arrow"@,
            StudyPlotType::Column => "Column"@,
            StudyPlotType::Area => "Area"@,
            StudyPlotType::Circles => "Circles"@,
            StudyPlotType::LineWithBreaks => "Line with Breaks"@,
            StudyPlotType::AreaWithBreaks => "Area with Breaks"@,
            StudyPlotType::StepLine => "Step Line"@,
            StudyPlotType::StepLineDiamond => "Step Line Diamond"@,
            StudyPlotType::Cross => "Cross"@,
            StudyPlotType::OhlcBars => "OHLC Bars"@,
            StudyPlotType::OhlcCandles => "OHLC Candles"@,
            StudyPlotType::ColorLine => "Color Line"@,
            StudyPlotType::ColorHistogram => "Color Histogram"@,
            StudyPlotType::ColorColumn => "Color Column"@,
            StudyPlotType::ColorArea => "Color Area"@,
            StudyPlotType::Shapes => "Shapes"@,
        }
    }

    pub open spec fn spec_all() -> Seq<StudyPlotType> {
        seq![StudyPlotType::Line, StudyPlotType::Histogram, StudyPlotType::Arrow, StudyPlotType::Column, StudyPlotType::Area, StudyPlotType::Circles, StudyPlotType::LineWithBreaks, StudyPlotType::AreaWithBreaks, StudyPlotType::StepLine, StudyPlotType::StepLineDiamond, StudyPlotType::Cross, StudyPlotType::OhlcBars, StudyPlotType::OhlcCandles, StudyPlotType::ColorLine, StudyPlotType::ColorHistogram, StudyPlotType::ColorColumn, StudyPlotType::ColorArea, StudyPlotType::Shapes]
    }

    pub fn all() -> (r: &'static [StudyPlotType])
        ensures
            r@ == Self::spec_all(),
            forall|x: StudyPlotType| #[trigger] r@.contains(x),
            r@.no_duplicates(),
    {
        proof {
            let s = Self::spec_all();
            assert forall|x: StudyPlotType| #[trigger] s.contains(x) by {
                match x {
                    StudyPlotType::Line => assert(s[0] == x),
                    StudyPlotType::Histogram => assert(s[1] == x),
                    StudyPlotType::Arrow => assert(s[2] == x),
                    StudyPlotType::Column => assert(s[3] == x),
                    StudyPlotType::Area => assert(s[4] == x),
                    StudyPlotType::Circles => assert(s[5] == x),
                    StudyPlotType::LineWithBreaks => assert(s[6] == x),
                    StudyPlotType::AreaWithBreaks => assert(s[7] == x),
                    StudyPlotType::StepLine => assert(s[8] == x),
                    StudyPlotType::StepLineDiamond => assert(s[9] == x),
                    StudyPlotType::Cross => assert(s[10] == x),
                    StudyPlotType::OhlcBars => assert(s[11] == x),
                    StudyPlotType::OhlcCandles => assert(s[12] == x),
                    StudyPlotType::ColorLine => assert(s[13] == x),
                    StudyPlotType::ColorHistogram => assert(s[14] == x),
                    StudyPlotType::ColorColumn => assert(s[15] == x),
                    StudyPlotType::ColorArea => assert(s[16] == x),
                    StudyPlotType::Shapes => assert(s[17] == x),
                }
            }
        }
        &[
            StudyPlotType::Line,
            StudyPlotType::Histogram,
            StudyPlotType::Arrow,
            StudyPlotType::Column,
            StudyPlotType::Area,
            StudyPlotType::Circles,
            StudyPlotType::LineWithBreaks,
            StudyPlotType::AreaWithBreaks,
            StudyPlotType::StepLine,
            StudyPlotType::StepLineDiamond,
            StudyPlotType::Cross,
            StudyPlotType::OhlcBars,
            StudyPlotType::OhlcCandles,
            StudyPlotType::ColorLine,
            StudyPlotType::ColorHistogram,
            StudyPlotType::ColorColumn,
            StudyPlotType::ColorArea,
            StudyPlotType::Shapes,
        ]
    }

    pub fn name(&self) -> (r: &'static str)
        ensures
            r@ == self.spec_name(),
    {
        match self {
            StudyPlotType::Line => "line",
            StudyPlotType::Histogram => "histogram",
            StudyPlotType::Arrow => "arrow",
            StudyPlotType::Column => "column",
            StudyPlotType::Area => "area",
            StudyPlotType::Circles => "circles",
            StudyPlotType::LineWithBreaks => "line_with_breaks",
            StudyPlotType::AreaWithBreaks => "area_with_breaks",
            StudyPlotType::StepLine => "step_line",
            StudyPlotType::StepLineDiamond => "step_line_diamond",
            StudyPlotType::Cross => "cross",
            StudyPlotType::OhlcBars => "ohlc_bars",
            StudyPlotType::OhlcCandles => "ohlc_candles",
            StudyPlotType::ColorLine => "color_line",
            StudyPlotType::ColorHistogram => "color_histogram",
            StudyPlotType::ColorColumn => "color_column",
            StudyPlotType::ColorArea => "color_area",
            StudyPlotType::Shapes => "shapes",
        }
    }

    pub fn display_name(&self) -> (r: &'static str)
        ensures
            r@ == self.spec_display_name(),
    {
        match self {
            StudyPlotType::Line => "Line",
            StudyPlotType::Histogram => "Histogram",
            StudyPlotType::Arrow => "Arrow",
            StudyPlotType::Column => "Column",
            StudyPlotType::Area => "Area",
            StudyPlotType::Circles => "Circles",
            StudyPlotType::LineWithBreaks => "Line with Breaks",
            StudyPlotType::AreaWithBreaks => "Area with Breaks",
            StudyPlotType::StepLine => "Step Line",
            StudyPlotType::StepLineDiamond => "Step Line Diamond",
            StudyPlotType::Cross => "Cross",
            StudyPlotType::OhlcBars => "OHLC Bars",
            StudyPlotType::OhlcCandles => "OHLC Candles",
            StudyPlotType::ColorLine => "Color Line",
            StudyPlotType::ColorHistogram => "Color Histogram",
            StudyPlotType::ColorColumn => "Color Column",
            StudyPlotType::ColorArea => "Color Area",
            StudyPlotType::Shapes => "Shapes",
        }
    }

    /// Text shown when this value is displayed.
    pub fn to_string(&self) -> (r: String)
        ensures
            r@ == self.spec_display_name(),
    {
        self.display_name().to_owned()
    }
}

impl Default for StudyPlotType {
    fn default() -> (r: Self)
        ensures
            r == StudyPlotType::Line,
    {
        StudyPlotType::Line
    }
}

/// Bitflags-style display target for study plots
///
/// Controls which pane(s) a study plot renders in.
/// Values can be OR'd together: `PriceScale | SeparatePane` = 3
#[derive(Debug, Clone, Copy, PartialEq, Eq, Hash, Structural)]
pub enum StudyDisplayTarget {
    /// Do not display
    NoDisplay,
    /// Display on the main price scale (value = 1)
    PriceScale,
    /// Display in a separate pane below the chart (value = 2)
    SeparatePane,
    /// Display on the status line only (value = 4)
    StatusLine,
    /// Display in data window only (value = 8)
    DataWindow,
    /// Display everywhere (value = 15)
    All,
}

impl StudyDisplayTarget {
    pub open spec fn spec_name(self) -> Seq<char> {
        match self {
            StudyDisplayTarget::NoDisplay => "none"@,
            StudyDisplayTarget::PriceScale => "price_scale"@,
            StudyDisplayTarget::SeparatePane => "separate_pane"@,
            StudyDisplayTarget::StatusLine => "status_line"@,
            StudyDisplayTarget::DataWindow => "data_window"@,
            StudyDisplayTarget::All => "all"@,
        }
    }

    pub open spec fn spec_display_name(self) -> Seq<char> {
        match self {
            StudyDisplayTarget::NoDisplay => "None"@,
            StudyDisplayTarget::PriceScale => "Price Scale"@,
            StudyDisplayTarget::SeparatePane => "Separate Pane"@,
            StudyDisplayTarget::StatusLine => "Status Line"@,
            StudyDisplayTarget::DataWindow => "Data Window"@,
            StudyDisplayTarget::All => "All"@,
        }
    }

    pub open spec fn spec_value(self) -> u8 {
        match self {
            StudyDisplayTarget::NoDisplay => 0,
            StudyDisplayTarget::PriceScale => 1,
            StudyDisplayTarget::SeparatePane => 2,
            StudyDisplayTarget::StatusLine => 4,
            StudyDisplayTarget::DataWindow => 8,
            StudyDisplayTarget::All => 15,
        }
    }

    pub open spec fn spec_all() -> Seq<StudyDisplayTarget> {
        seq![StudyDisplayTarget::NoDisplay, StudyDisplayTarget::PriceScale, StudyDisplayTarget::SeparatePane, StudyDisplayTarget::StatusLine, StudyDisplayTarget::DataWindow, StudyDisplayTarget::All]
    }

    pub fn all() -> (r: &'static [StudyDisplayTarget])
        ensures
            r@ == Self::spec_all(),
            forall|x: StudyDisplayTarget| #[trigger] r@.contains(x),
            r@.no_duplicates(),
    {
        proof {
            let s = Self::spec_all();
            assert forall|x: StudyDisplayTarget| #[trigger] s.contains(x) by {
                match x {
                    StudyDisplayTarget::NoDisplay => assert(s[0] == x),
                    StudyDisplayTarget::PriceScale => assert(s[1] == x),
                    StudyDisplayTarget::SeparatePane => assert(s[2] == x),
                    StudyDisplayTarget::StatusLine => assert(s[3] == x),
                    StudyDisplayTarget::DataWindow => assert(s[4] == x),
                    StudyDisplayTarget::All => assert(s[5] == x),
                }
            }
        }
        &[
            StudyDisplayTarget::NoDisplay,
            StudyDisplayTarget::PriceScale,
            StudyDisplayTarget::SeparatePane,
            StudyDisplayTarget::StatusLine,
            StudyDisplayTarget::DataWindow,
            StudyDisplayTarget::All,
        ]
    }

    pub fn name(&self) -> (r: &'static str)
        ensures
            r@ == self.spec_name(),
    {
        match self {
            StudyDisplayTarget::NoDisplay => "none",
            StudyDisplayTarget::PriceScale => "price_scale",
            StudyDisplayTarget::SeparatePane => "separate_pane",
            StudyDisplayTarget::StatusLine => "status_line",
            StudyDisplayTarget::DataWindow => "data_window",
            StudyDisplayTarget::All => "all",
        }
    }

    pub fn display_name(&self) -> (r: &'static str)
        ensures
            r@ == self.spec_display_name(),
    {
        match self {
            StudyDisplayTarget::NoDisplay => "None",
            StudyDisplayTarget::PriceScale => "Price Scale",
            StudyDisplayTarget::SeparatePane => "Separate Pane",
            StudyDisplayTarget::StatusLine => "Status Line",
            StudyDisplayTarget::DataWindow => "Data Window",
            StudyDisplayTarget::All => "All",
        }
    }

    /// Numeric value for display target bitflags
    pub fn value(&self) -> (r: u8)
        ensures
            r == self.spec_value(),
    {
        match self {
            StudyDisplayTarget::NoDisplay => 0,
            StudyDisplayTarget::PriceScale => 1,
            StudyDisplayTarget::SeparatePane => 2,
            StudyDisplayTarget::StatusLine => 4,
            StudyDisplayTarget::DataWindow => 8,
            StudyDisplayTarget::All => 15,
        }
    }

    /// Text shown when this value is displayed.
    pub fn to_string(&self) -> (r: String)
        ensures
            r@ == self.spec_display_name(),
    {
        self.display_name().to_owned()
    }
}

impl Default for StudyDisplayTarget {
    fn default() -> (r: Self)
        ensures
            r == StudyDisplayTarget::PriceScale,
    {
        StudyDisplayTarget::PriceScale
    }
}

/// Study input parameter type
#[derive(Debug, Clone, Copy, PartialEq, Eq, Hash, Structural)]
pub enum StudyInputType {
    /// Integer input
    Integer,
    /// Floating point input
    Float,
    /// Boolean toggle
    Bool,
    /// Text / string input
    Text,
    /// Color picker
    Color,
    /// Symbol search input
    Symbol,
    /// Resolution / timeframe selector
    Resolution,
    /// Session selector
    Session,
    /// Source selector (close, open, high, low, etc.)
    Source,
    /// Line style selector
    LineStyle,
    /// Line width selector
    LineWidth,
    /// Price source (another study's output)
    PriceSource,
    /// Custom input defined by the study
    Custom,
}

impl StudyInputType {
    pub open spec fn spec_name(self) -> Seq<char> {
        match self {
            StudyInputType::Integer => "integer"@,
            StudyInputType::Float => "float"@,
            StudyInputType::Bool => "bool"@,
            StudyInputType::Text => "text"@,
            StudyInputType::Color => "color"@,
            StudyInputType::Symbol => "symbol"@,
            StudyInputType::Resolution => "resolution"@,
            StudyInputType::Session => "session"@,
            StudyInputType::Source => "source"@,
            StudyInputType::LineStyle => "line_style"@,
            StudyInputType::LineWidth => "line_width"@,
            StudyInputType::PriceSource => "price_source"@,
            StudyInputType::Custom => "custom"@,
        }
    }

    pub open spec fn spec_display_name(self) -> Seq<char> {
        match self {
            StudyInputType::Integer => "Integer"@,
            StudyInputType::Float => "Float"@,
            StudyInputType::Bool => "Boolean"@,
            StudyInputType::Text => "Text"@,
            StudyInputType::Color => "Color"@,
            StudyInputType::Symbol => "Symbol"@,
            StudyInputType::Resolution => "Resolution"@,
            StudyInputType::Session => "Session"@,
            StudyInputType::Source => "Source"@,
            StudyInputType::LineStyle => "Line Style"@,
            StudyInputType::LineWidth => "Line Width"@,
            StudyInputType::PriceSource => "Price Source"@,
            StudyInputType::Custom => "Custom"@,
        }
    }

    pub open spec fn spec_all() -> Seq<StudyInputType> {
        seq![StudyInputType::Integer, StudyInputType::Float, StudyInputType::Bool, StudyInputType::Text, StudyInputType::Color, StudyInputType::Symbol, StudyInputType::Resolution, StudyInputType::Session, StudyInputType::Source, StudyInputType::LineStyle, StudyInputType::LineWidth, StudyInputType::PriceSource, StudyInputType::Custom]
    }

    pub fn all() -> (r: &'static [StudyInputType])
        ensures
            r@ == Self::spec_all(),
            forall|x: StudyInputType| #[trigger] r@.contains(x),
            r@.no_duplicates(),
    {
        proof {
            let s = Self::spec_all();
            assert forall|x: StudyInputType| #[trigger] s.contains(x) by {
                match x {
                    StudyInputType::Integer => assert(s[0] == x),
                    StudyInputType::Float => assert(s[1] == x),
                    StudyInputType::Bool => assert(s[2] == x),
                    StudyInputType::Text => assert(s[3] == x),
                    StudyInputType::Color => assert(s[4] == x),
                    StudyInputType::Symbol => assert(s[5] == x),
                    StudyInputType::Resolution => assert(s[6] == x),
                    StudyInputType::Session => assert(s[7] == x),
                    StudyInputType::Source => assert(s[8] == x),
                    StudyInputType::LineStyle => assert(s[9] == x),
                    StudyInputType::LineWidth => assert(s[10] == x),
                    StudyInputType::PriceSource => assert(s[11] == x),
                    StudyInputType::Custom => assert(s[12] == x),
                }
            }
        }
        &[
            StudyInputType::Integer,
            StudyInputType::Float,
            StudyInputType::Bool,
            StudyInputType::Text,
            StudyInputType::Color,
            StudyInputType::Symbol,
            StudyInputType::Resolution,
            StudyInputType::Session,
            StudyInputType::Source,
            StudyInputType::LineStyle,
            StudyInputType::LineWidth,
            StudyInputType::PriceSource,
            StudyInputType::Custom,
        ]
    }

    pub fn name(&self) -> (r: &'static str)
        ensures
            r@ == self.spec_name(),
    {
        match self {
            StudyInputType::Integer => "integer",
            StudyInputType::Float => "float",
            StudyInputType::Bool => "bool",
            StudyInputType::Text => "text",
            StudyInputType::Color => "color",
            StudyInputType::Symbol => "symbol",
            StudyInputType::Resolution => "resolution",
            StudyInputType::Session => "session",
            StudyInputType::Source => "source",
            StudyInputType::LineStyle => "line_style",
            StudyInputType::LineWidth => "line_width",
            StudyInputType::PriceSource => "price_source",
            StudyInputType::Custom => "custom",
        }
    }

    pub fn display_name(&self) -> (r: &'static str)
        ensures
            r@ == self.spec_display_name(),
    {
        match self {
            StudyInputType::Integer => "Integer",
            StudyInputType::Float => "Float",
            StudyInputType::Bool => "Boolean",
            StudyInputType::Text => "Text",
            StudyInputType::Color => "Color",
            StudyInputType::Symbol => "Symbol",
            StudyInputType::Resolution => "Resolution",
            StudyInputType::Session => "Session",
            StudyInputType::Source => "Source",
            StudyInputType::LineStyle => "Line Style",
            StudyInputType::LineWidth => "Line Width",
            StudyInputType::PriceSource => "Price Source",
            StudyInputType::Custom => "Custom",
        }
    }

    /// Text shown when this value is displayed.
    pub fn to_string(&self) -> (r: String)
        ensures
            r@ == self.spec_display_name(),
    {
        self.display_name().to_owned()
    }
}

impl Default for StudyInputType {
    fn default() -> (r: Self)
        ensures
            r == StudyInputType::Integer,
    {
        StudyInputType::Integer
    }
}

/// Target price scale for a study
#[derive(Debug, Clone, Copy, PartialEq, Eq, Hash, Structural)]
pub enum StudyTargetPriceScale {
    /// Left price scale
    Left,
    /// Right price scale
    Right,
    /// No price scale (overlay)
    NoScale,
}

impl StudyTargetPriceScale {
    pub open spec fn spec_name(self) -> Seq<char> {
        match self {
            StudyTargetPriceScale::Left => "left"@,
            StudyTargetPriceScale::Right => "right"@,
            StudyTargetPriceScale::NoScale => "no_scale"@,
        }
    }

    pub open spec fn spec_display_name(self) -> Seq<char> {
        match self {
            StudyTargetPriceScale::Left => "Left"@,
            StudyTargetPriceScale::Right => "Right"@,
            StudyTargetPriceScale::NoScale => "No Scale"@,
        }
    }

    pub open spec fn spec_all() -> Seq<StudyTargetPriceScale> {
        seq![StudyTargetPriceScale::Left, StudyTargetPriceScale::Right, StudyTargetPriceScale::NoScale]
    }

    pub fn all() -> (r: &'static [StudyTargetPriceScale])
        ensures
            r@ == Self::spec_all(),
            forall|x: StudyTargetPriceScale| #[trigger] r@.contains(x),
            r@.no_duplicates(),
    {
        proof {
            let s = Self::spec_all();
            assert forall|x: StudyTargetPriceScale| #[trigger] s.contains(x) by {
                match x {
                    StudyTargetPriceScale::Left => assert(s[0] == x),
                    StudyTargetPriceScale::Right => assert(s[1] == x),
                    StudyTargetPriceScale::NoScale => assert(s[2] == x),
                }
            }
        }
        &[
            StudyTargetPriceScale::Left,
            StudyTargetPriceScale::Right,
            StudyTargetPriceScale::NoScale,
        ]
    }

    pub fn name(&self) -> (r: &'static str)
        ensures
            r@ == self.spec_name(),
    {
        match self {
            StudyTargetPriceScale::Left => "left",
            StudyTargetPriceScale::Right => "right",
            StudyTargetPriceScale::NoScale => "no_scale",
        }
    }

    pub fn display_name(&self) -> (r: &'static str)
        ensures
            r@ == self.spec_display_name(),
    {
        match self {
            StudyTargetPriceScale::Left => "Left",
            StudyTargetPriceScale::Right => "Right",
            StudyTargetPriceScale::NoScale => "No Scale",
        }
    }

    /// Text shown when this value is displayed.
    pub fn to_string(&self) -> (r: String)
        ensures
            r@ == self.spec_display_name(),
    {
        self.display_name().to_owned()
    }
}

impl Default for StudyTargetPriceScale {
    fn default() -> (r: Self)
        ensures
            r == StudyTargetPriceScale::Right,
    {
        StudyTargetPriceScale::Right
    }
}

/// Line study plot style (for studies that render as line tools)
#[derive(Debug, Clone, Copy, PartialEq, Eq, Hash, Structural)]
pub enum LineStudyPlotStyle {
    /// Solid line
    Line,
    /// Histogram bars
    Histogram,
    /// Cross markers
    Cross,
    /// Area fill
    Area,
    /// Column bars
    Columns,
    /// Circles / dots
    Circles,
    /// Arrow markers
    Arrows,
    /// Step line
    StepLine,
    /// Bars (OHLC)
    Bars,
    /// Candlestick
    Candles,
    /// Hollow candles
    HollowCandles,
}

impl LineStudyPlotStyle {
    pub open spec fn spec_name(self) -> Seq<char> {
        match self {
            LineStudyPlotStyle::Line => "line"@,
            LineStudyPlotStyle::Histogram => "histogram"@,
            LineStudyPlotStyle::Cross => "cross"@,
            LineStudyPlotStyle::Area => "area"@,
            LineStudyPlotStyle::Columns => "columns"@,
            LineStudyPlotStyle::Circles => "circles"@,
            LineStudyPlotStyle::Arrows => "arrows"@,
            LineStudyPlotStyle::StepLine => "step_line"@,
            LineStudyPlotStyle::Bars => "bars"@,
            LineStudyPlotStyle::Candles => "candles"@,
            LineStudyPlotStyle::HollowCandles => "hollow_candles"@,
        }
    }

    pub open spec fn spec_display_name(self) -> Seq<char> {
        match self {
            LineStudyPlotStyle::Line => "Line"@,
            LineStudyPlotStyle::Histogram => "Histogram"@,
            LineStudyPlotStyle::Cross => "Cross"@,
            LineStudyPlotStyle::Area => "Area"@,
            LineStudyPlotStyle::Columns => "Columns"@,
            LineStudyPlotStyle::Circles => "Circles"@,
            LineStudyPlotStyle::Arrows => "Arrows"@,
            LineStudyPlotStyle::StepLine => "Step Line"@,
            LineStudyPlotStyle::Bars => "Bars"@,
            LineStudyPlotStyle::Candles => "Candles"@,
            LineStudyPlotStyle::HollowCandles => "Hollow Candles"@,
        }
    }

    pub open spec fn spec_all() -> Seq<LineStudyPlotStyle> {
        seq![LineStudyPlotStyle::Line, LineStudyPlotStyle::Histogram, LineStudyPlotStyle::Cross, LineStudyPlotStyle::Area, LineStudyPlotStyle::Columns, LineStudyPlotStyle::Circles, LineStudyPlotStyle::Arrows, LineStudyPlotStyle::StepLine, LineStudyPlotStyle::Bars, LineStudyPlotStyle::Candles, LineStudyPlotStyle::HollowCandles]
    }

    pub fn all() -> (r: &'static [LineStudyPlotStyle])
        ensures
            r@ == Self::spec_all(),
            forall|x: LineStudyPlotStyle| #[trigger] r@.contains(x),
            r@.no_duplicates(),
    {
        proof {
            let s = Self::spec_all();
            assert forall|x: LineStudyPlotStyle| #[trigger] s.contains(x) by {
                match x {
                    LineStudyPlotStyle::Line => assert(s[0] == x),
                    LineStudyPlotStyle::Histogram => assert(s[1] == x),
                    LineStudyPlotStyle::Cross => assert(s[2] == x),
                    LineStudyPlotStyle::Area => assert(s[3] == x),
                    LineStudyPlotStyle::Columns => assert(s[4] == x),
                    LineStudyPlotStyle::Circles => assert(s[5] == x),
                    LineStudyPlotStyle::Arrows => assert(s[6] == x),
                    LineStudyPlotStyle::StepLine => assert(s[7] == x),
                    LineStudyPlotStyle::Bars => assert(s[8] == x),
                    LineStudyPlotStyle::Candles => assert(s[9] == x),
                    LineStudyPlotStyle::HollowCandles => assert(s[10] == x),
                }
            }
        }
        &[
            LineStudyPlotStyle::Line,
            LineStudyPlotStyle::Histogram,
            LineStudyPlotStyle::Cross,
            LineStudyPlotStyle::Area,
            LineStudyPlotStyle::Columns,
            LineStudyPlotStyle::Circles,
            LineStudyPlotStyle::Arrows,
            LineStudyPlotStyle::StepLine,
            LineStudyPlotStyle::Bars,
            LineStudyPlotStyle::Candles,
            LineStudyPlotStyle::HollowCandles,
        ]
    }

    pub fn name(&self) -> (r: &'static str)
        ensures
            r@ == self.spec_name(),
    {
        match self {
            LineStudyPlotStyle::Line => "line",
            LineStudyPlotStyle::Histogram => "histogram",
            LineStudyPlotStyle::Cross => "cross",
            LineStudyPlotStyle::Area => "area",
            LineStudyPlotStyle::Columns => "columns",
            LineStudyPlotStyle::Circles => "circles",
            LineStudyPlotStyle::Arrows => "arrows",
            LineStudyPlotStyle::StepLine => "step_line",
            LineStudyPlotStyle::Bars => "bars",
            LineStudyPlotStyle::Candles => "candles",
            LineStudyPlotStyle::HollowCandles => "hollow_candles",
        }
    }

    pub fn display_name(&self) -> (r: &'static str)
        ensures
            r@ == self.spec_display_name(),
    {
        match self {
            LineStudyPlotStyle::Line => "Line",
            LineStudyPlotStyle::Histogram => "Histogram",
            LineStudyPlotStyle::Cross => "Cross",
            LineStudyPlotStyle::Area => "Area",
            LineStudyPlotStyle::Columns => "Columns",
            LineStudyPlotStyle::Circles => "Circles",
            LineStudyPlotStyle::Arrows => "Arrows",
            LineStudyPlotStyle::StepLine => "Step Line",
            LineStudyPlotStyle::Bars => "Bars",
            LineStudyPlotStyle::Candles => "Candles",
            LineStudyPlotStyle::HollowCandles => "Hollow Candles",
        }
    }

    /// Text shown when this value is displayed.
    pub fn to_string(&self) -> (r: String)
        ensures
            r@ == self.spec_display_name(),
    {
        self.display_name().to_owned()
    }
}

impl Default for LineStudyPlotStyle {
    fn default() -> (r: Self)
        ensures
            r == LineStudyPlotStyle::Line,
    {
        LineStudyPlotStyle::Line
    }
}

/// OHLC study plot style
#[derive(Debug, Clone, Copy, PartialEq, Eq, Hash, Structural)]
pub enum OhlcStudyPlotStyle {
    /// Traditional OHLC bars
    OhlcBars,
    /// Japanese candlesticks
    Candles,
}

impl OhlcStudyPlotStyle {
    pub open spec fn spec_name(self) -> Seq<char> {
        match self {
            OhlcStudyPlotStyle::OhlcBars => "ohlc_bars"@,
            OhlcStudyPlotStyle::Candles => "candles"@,
        }
    }

    pub open spec fn spec_display_name(self) -> Seq<char> {
        match self {
            OhlcStudyPlotStyle::OhlcBars => "OHLC Bars"@,
            OhlcStudyPlotStyle::Candles => "Candles"@,
        }
    }

    pub open spec fn spec_all() -> Seq<OhlcStudyPlotStyle> {
        seq![OhlcStudyPlotStyle::OhlcBars, OhlcStudyPlotStyle::Candles]
    }

    pub fn all() -> (r: &'static [OhlcStudyPlotStyle])
        ensures
            r@ == Self::spec_all(),
            forall|x: OhlcStudyPlotStyle| #[trigger] r@.contains(x),
            r@.no_duplicates(),
    {
        proof {
            let s = Self::spec_all();
            assert forall|x: OhlcStudyPlotStyle| #[trigger] s.contains(x) by {
                match x {
                    OhlcStudyPlotStyle::OhlcBars => assert(s[0] == x),
                    OhlcStudyPlotStyle::Candles => assert(s[1] == x),
                }
            }
        }
        &[
            OhlcStudyPlotStyle::OhlcBars,
            OhlcStudyPlotStyle::Candles,
        ]
    }

    pub fn name(&self) -> (r: &'static str)
        ensures
            r@ == self.spec_name(),
    {
        match self {
            OhlcStudyPlotStyle::OhlcBars => "ohlc_bars",
            OhlcStudyPlotStyle::Candles => "candles",
        }
    }

    pub fn display_name(&self) -> (r: &'static str)
        ensures
            r@ == self.spec_display_name(),
    {
        match self {
            OhlcStudyPlotStyle::OhlcBars => "OHLC Bars",
            OhlcStudyPlotStyle::Candles => "Candles",
        }
    }

    /// Text shown when this value is displayed.
    pub fn to_string(&self) -> (r: String)
        ensures
            r@ == self.spec_display_name(),
    {
        self.display_name().to_owned()
    }
}

impl Default for OhlcStudyPlotStyle {
    fn default() -> (r: Self)
        ensures
            r == OhlcStudyPlotStyle::OhlcBars,
    {
        OhlcStudyPlotStyle::OhlcBars
    }
}

/// Filled area type (for study areas between two plots)
#[derive(Debug, Clone, Copy, PartialEq, Eq, Hash, Structural)]
pub enum FilledAreaType {
    /// Fill between two plot lines
    AbsolutePrice,
    /// Fill between a plot and a horizontal level
    HorizontalLine,
}

impl FilledAreaType {
    pub open spec fn spec_name(self) -> Seq<char> {
        match self {
            FilledAreaType::AbsolutePrice => "absolute_price"@,
            FilledAreaType::HorizontalLine => "horizontal_line"@,
        }
    }

    pub open spec fn spec_display_name(self) -> Seq<char> {
        match self {
            FilledAreaType::AbsolutePrice => "Between Plots"@,
            FilledAreaType::HorizontalLine => "To Level"@,
        }
    }

    pub open spec fn spec_all() -> Seq<FilledAreaType> {
        seq![FilledAreaType::AbsolutePrice, FilledAreaType::HorizontalLine]
    }

    pub fn all() -> (r: &'static [FilledAreaType])
        ensures
            r@ == Self::spec_all(),
            forall|x: FilledAreaType| #[trigger] r@.contains(x),
            r@.no_duplicates(),
    {
        proof {
            let s = Self::spec_all();
            assert forall|x: FilledAreaType| #[trigger] s.contains(x) by {
                match x {
                    FilledAreaType::AbsolutePrice => assert(s[0] == x),
                    FilledAreaType::HorizontalLine => assert(s[1] == x),
                }
            }
        }
        &[
            FilledAreaType::AbsolutePrice,
            FilledAreaType::HorizontalLine,
        ]
    }

    pub fn name(&self) -> (r: &'static str)
        ensures
            r@ == self.spec_name(),
    {
        match self {
            FilledAreaType::AbsolutePrice => "absolute_price",
            FilledAreaType::HorizontalLine => "horizontal_line",
        }
    }

    pub fn display_name(&self) -> (r: &'static str)
        ensures
            r@ == self.spec_display_name(),
    {
        match self {
            FilledAreaType::AbsolutePrice => "Between Plots",
            FilledAreaType::HorizontalLine => "To Level",
        }
    }

    /// Text shown when this value is displayed.
    pub fn to_string(&self) -> (r: String)
        ensures
            r@ == self.spec_display_name(),
    {
        self.display_name().to_owned()
    }
}

impl Default for FilledAreaType {
    fn default() -> (r: Self)
        ensures
            r == FilledAreaType::AbsolutePrice,
    {
        FilledAreaType::AbsolutePrice
    }
}

/// The display targets are bit flags: `NoDisplay` sets no bit, each single target
/// sets its own bit, and `All` is the union of the four single targets.
pub proof fn display_target_flags()
    ensures
        StudyDisplayTarget::NoDisplay.spec_value() == 0,
        StudyDisplayTarget::All.spec_value() == (StudyDisplayTarget::PriceScale.spec_value()
            | StudyDisplayTarget::SeparatePane.spec_value() | StudyDisplayTarget::StatusLine.spec_value()
            | StudyDisplayTarget::DataWindow.spec_value()),
        StudyDisplayTarget::PriceScale.spec_value() & StudyDisplayTarget::SeparatePane.spec_value() == 0,
        StudyDisplayTarget::PriceScale.spec_value() & StudyDisplayTarget::StatusLine.spec_value() == 0,
        StudyDisplayTarget::PriceScale.spec_value() & StudyDisplayTarget::DataWindow.spec_value() == 0,
        StudyDisplayTarget::SeparatePane.spec_value() & StudyDisplayTarget::StatusLine.spec_value() == 0,
        StudyDisplayTarget::SeparatePane.spec_value() & StudyDisplayTarget::DataWindow.spec_value() == 0,
        StudyDisplayTarget::StatusLine.spec_value() & StudyDisplayTarget::DataWindow.spec_value() == 0,
{
    assert(1u8 | 2u8 | 4u8 | 8u8 == 15u8) by (bit_vector);
    assert(1u8 & 2u8 == 0u8 && 1u8 & 4u8 == 0u8 && 1u8 & 8u8 == 0u8) by (bit_vector);
    assert(2u8 & 4u8 == 0u8 && 2u8 & 8u8 == 0u8 && 4u8 & 8u8 == 0u8) by (bit_vector);
}

} // verus!

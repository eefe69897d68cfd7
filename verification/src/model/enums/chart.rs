//! Chart, drawing, and layout enums.
//!
//! Wire-format enum definitions for chart display modes, drawing tool
//! styles, timezones, resolutions, and UI layout configurations. These
//! types mirror the TradingView Charting Library wire protocol. Domain-level
//! code should prefer the higher-level types in [`crate::model`] where available.
use crate::text::{push_str, str_eq};
use vstd::prelude::*;

verus! {

/// Line style for drawing tools (trend lines, channels, etc.)
///
/// Discriminant values:
/// Solid=0, Dotted=1, Dashed=2, LargeDashed=3, SparseDotted=4
#[derive(Debug, Clone, Copy, PartialEq, Eq, Hash, Structural)]
pub enum LineStyle {
    /// Solid continuous line
    Solid,
    /// Dotted line with small gaps
    Dotted,
    /// Dashed line with regular gaps
    Dashed,
    /// Large dashed line with wider segments
    LargeDashed,
    /// Sparse dotted line with wider gaps
    SparseDotted,
}

impl LineStyle {
    pub open spec fn spec_name(self) -> Seq<char> {
        match self {
            LineStyle::Solid => "solid"@,
            LineStyle::Dotted => "dotted"@,
            LineStyle::Dashed => "dashed"@,
            LineStyle::LargeDashed => "large_dashed"@,
            LineStyle::SparseDotted => "sparse_dotted"@,
        }
    }

    pub open spec fn spec_display_name(self) -> Seq<char> {
        match self {
            LineStyle::Solid => "Solid"@,
            LineStyle::Dotted => "Dotted"@,
            LineStyle::Dashed => "Dashed"@,
            LineStyle::LargeDashed => "Large Dashed"@,
            LineStyle::SparseDotted => "Sparse Dotted"@,
        }
    }

    pub open spec fn spec_all() -> Seq<LineStyle> {
        seq![LineStyle::Solid, LineStyle::Dotted, LineStyle::Dashed, LineStyle::LargeDashed, LineStyle::SparseDotted]
    }

    pub fn all() -> (r: &'static [LineStyle])
        ensures
            r@ == Self::spec_all(),
            forall|x: LineStyle| #[trigger] r@.contains(x),
            r@.no_duplicates(),
    {
        proof {
            let s = Self::spec_all();
            assert forall|x: LineStyle| #[trigger] s.contains(x) by {
                match x {
                    LineStyle::Solid => assert(s[0] == x),
                    LineStyle::Dotted => assert(s[1] == x),
                    LineStyle::Dashed => assert(s[2] == x),
                    LineStyle::LargeDashed => assert(s[3] == x),
                    LineStyle::SparseDotted => assert(s[4] == x),
                }
            }
        }
        &[
            LineStyle::Solid,
            LineStyle::Dotted,
            LineStyle::Dashed,
            LineStyle::LargeDashed,
            LineStyle::SparseDotted,
        ]
    }

    pub fn name(&self) -> (r: &'static str)
        ensures
            r@ == self.spec_name(),
    {
        match self {
            LineStyle::Solid => "solid",
            LineStyle::Dotted => "dotted",
            LineStyle::Dashed => "dashed",
            LineStyle::LargeDashed => "large_dashed",
            LineStyle::SparseDotted => "sparse_dotted",
        }
    }

    pub fn display_name(&self) -> (r: &'static str)
        ensures
            r@ == self.spec_display_name(),
    {
        match self {
            LineStyle::Solid => "Solid",
            LineStyle::Dotted => "Dotted",
            LineStyle::Dashed => "Dashed",
            LineStyle::LargeDashed => "Large Dashed",
            LineStyle::SparseDotted => "Sparse Dotted",
        }
    }

    /// Text shown when this value is displayed.
    pub fn to_string(&self) -> (r: String)
        ensures
            r@ == self.spec_display_name(),
    {
        self.display_name().to_owned()
    }
}

impl Default for LineStyle {
    fn default() -> (r: Self)
        ensures
            r == LineStyle::Solid,
    {
        LineStyle::Solid
    }
}

/// Chart display mode (logarithmic vs linear)
#[derive(Debug, Clone, Copy, PartialEq, Eq, Hash, Structural)]
pub enum ChartMode {
    /// Linear/Arithmetic scale
    Linear,
    /// Logarithmic scale
    Logarithmic,
    /// Percentage scale (percentage change from start)
    Percentage,
    /// Indexed to 100 (normalized scale)
    IndexedTo100,
}

impl ChartMode {
    pub open spec fn spec_name(self) -> Seq<char> {
        match self {
            ChartMode::Linear => "linear"@,
            ChartMode::Logarithmic => "log"@,
            ChartMode::Percentage => "percentage"@,
            ChartMode::IndexedTo100 => "indexed_to_100"@,
        }
    }

    pub open spec fn spec_display_name(self) -> Seq<char> {
        match self {
            ChartMode::Linear => "Linear"@,
            ChartMode::Logarithmic => "Logarithmic"@,
            ChartMode::Percentage => "Percentage"@,
            ChartMode::IndexedTo100 => "Indexed to 100"@,
        }
    }

    pub open spec fn spec_short_name(self) -> Seq<char> {
        match self {
            ChartMode::Linear => "Lin"@,
            ChartMode::Logarithmic => "Log"@,
            ChartMode::Percentage => "%"@,
            ChartMode::IndexedTo100 => "Idx"@,
        }
    }

    pub open spec fn spec_all() -> Seq<ChartMode> {
        seq![ChartMode::Linear, ChartMode::Logarithmic, ChartMode::Percentage, ChartMode::IndexedTo100]
    }

    pub fn all() -> (r: &'static [ChartMode])
        ensures
            r@ == Self::spec_all(),
            forall|x: ChartMode| #[trigger] r@.contains(x),
            r@.no_duplicates(),
    {
        proof {
            let s = Self::spec_all();
            assert forall|x: ChartMode| #[trigger] s.contains(x) by {
                match x {
                    ChartMode::Linear => assert(s[0] == x),
                    ChartMode::Logarithmic => assert(s[1] == x),
                    ChartMode::Percentage => assert(s[2] == x),
                    ChartMode::IndexedTo100 => assert(s[3] == x),
                }
            }
        }
        &[
            ChartMode::Linear,
            ChartMode::Logarithmic,
            ChartMode::Percentage,
            ChartMode::IndexedTo100,
        ]
    }

    pub fn name(&self) -> (r: &'static str)
        ensures
            r@ == self.spec_name(),
    {
        match self {
            ChartMode::Linear => "linear",
            ChartMode::Logarithmic => "log",
            ChartMode::Percentage => "percentage",
            ChartMode::IndexedTo100 => "indexed_to_100",
        }
    }

    pub fn display_name(&self) -> (r: &'static str)
        ensures
            r@ == self.spec_display_name(),
    {
        match self {
            ChartMode::Linear => "Linear",
            ChartMode::Logarithmic => "Logarithmic",
            ChartMode::Percentage => "Percentage",
            ChartMode::IndexedTo100 => "Indexed to 100",
        }
    }

    pub fn short_name(&self) -> (r: &'static str)
        ensures
            r@ == self.spec_short_name(),
    {
        match self {
            ChartMode::Linear => "Lin",
            ChartMode::Logarithmic => "Log",
            ChartMode::Percentage => "%",
            ChartMode::IndexedTo100 => "Idx",
        }
    }

    /// Text shown when this value is displayed.
    pub fn to_string(&self) -> (r: String)
        ensures
            r@ == self.spec_display_name(),
    {
        self.display_name().to_owned()
    }
}

impl Default for ChartMode {
    fn default() -> (r: Self)
        ensures
            r == ChartMode::Linear,
    {
        ChartMode::Linear
    }
}

/// Timezone options for chart display
#[derive(Debug, Clone, Copy, PartialEq, Eq, Hash, Structural)]
pub enum Timezone {
    /// Use browser local timezone
    Local,
    /// Use exchange timezone
    Exchange,
    /// UTC/GMT timezone
    UTC,
    /// America/New_York (EST/EDT)
    AmericaNewYork,
    /// America/Chicago (CST/CDT)
    AmericaChicago,
    /// America/Denver (MST/MDT)
    AmericaDenver,
    /// America/Los_Angeles (PST/PDT)
    AmericaLosAngeles,
    /// Europe/London (GMT/BST)
    EuropeLondon,
    /// Europe/Paris (CET/CEST)
    EuropeParis,
    /// Europe/Berlin (CET/CEST)
    EuropeBerlin,
    /// Asia/Tokyo (JST)
    AsiaTokyo,
    /// Asia/Hong_Kong (HKT)
    AsiaHongKong,
    /// Asia/Singapore (SGT)
    AsiaSingapore,
    /// Australia/Sydney (AEST/AEDT)
    AustraliaSydney,
    /// Pacific/Auckland (NZST/NZDT)
    PacificAuckland,
}

impl Timezone {
    pub open spec fn spec_name(self) -> Seq<char> {
        match self {
            Timezone::Local => "local"@,
            Timezone::Exchange => "exchange"@,
            Timezone::UTC => "UTC"@,
            Timezone::AmericaNewYork => "America/New_York"@,
            Timezone::AmericaChicago => "America/Chicago"@,
            Timezone::AmericaDenver => "America/Denver"@,
            Timezone::AmericaLosAngeles => "America/Los_Angeles"@,
            Timezone::EuropeLondon => "Europe/London"@,
            Timezone::EuropeParis => "Europe/Paris"@,
            Timezone::EuropeBerlin => "Europe/Berlin"@,
            Timezone::AsiaTokyo => "Asia/Tokyo"@,
            Timezone::AsiaHongKong => "Asia/Hong_Kong"@,
            Timezone::AsiaSingapore => "Asia/Singapore"@,
            Timezone::AustraliaSydney => "Australia/Sydney"@,
            Timezone::PacificAuckland => "Pacific/Auckland"@,
        }
    }

    pub open spec fn spec_display_name(self) -> Seq<char> {
        match self {
            Timezone::Local => "Local"@,
            Timezone::Exchange => "Exchange"@,
            Timezone::UTC => "UTC"@,
            Timezone::AmericaNewYork => "New York (EST/EDT)"@,
            Timezone::AmericaChicago => "Chicago (CST/CDT)"@,
            Timezone::AmericaDenver => "Denver (MST/MDT)"@,
            Timezone::AmericaLosAngeles => "Los Angeles (PST/PDT)"@,
            Timezone::EuropeLondon => "London (GMT/BST)"@,
            Timezone::EuropeParis => "Paris (CET/CEST)"@,
            Timezone::EuropeBerlin => "Berlin (CET/CEST)"@,
            Timezone::AsiaTokyo => "Tokyo (JST)"@,
            Timezone::AsiaHongKong => "Hong Kong (HKT)"@,
            Timezone::AsiaSingapore => "Singapore (SGT)"@,
            Timezone::AustraliaSydney => "Sydney (AEST/AEDT)"@,
            Timezone::PacificAuckland => "Auckland (NZST/NZDT)"@,
        }
    }

    pub open spec fn spec_standard_offset_secs(self) -> i32 {
        match self {
            Timezone::Local => 0,
            Timezone::Exchange => 0,
            Timezone::UTC => 0,
            Timezone::AmericaNewYork => -18000i32,
            Timezone::AmericaChicago => -21600i32,
            Timezone::AmericaDenver => -25200i32,
            Timezone::AmericaLosAngeles => -28800i32,
            Timezone::EuropeLondon => 0,
            Timezone::EuropeParis => 3600,
            Timezone::EuropeBerlin => 3600,
            Timezone::AsiaTokyo => 32400,
            Timezone::AsiaHongKong => 28800,
            Timezone::AsiaSingapore => 28800,
            Timezone::AustraliaSydney => 36000,
            Timezone::PacificAuckland => 43200,
        }
    }

    pub open spec fn spec_all() -> Seq<Timezone> {
        seq![Timezone::Local, Timezone::Exchange, Timezone::UTC, Timezone::AmericaNewYork, Timezone::AmericaChicago, Timezone::AmericaDenver, Timezone::AmericaLosAngeles, Timezone::EuropeLondon, Timezone::EuropeParis, Timezone::EuropeBerlin, Timezone::AsiaTokyo, Timezone::AsiaHongKong, Timezone::AsiaSingapore, Timezone::AustraliaSydney, Timezone::PacificAuckland]
    }

    pub fn all() -> (r: &'static [Timezone])
        ensures
            r@ == Self::spec_all(),
            forall|x: Timezone| #[trigger] r@.contains(x),
            r@.no_duplicates(),
    {
        proof {
            let s = Self::spec_all();
            assert forall|x: Timezone| #[trigger] s.contains(x) by {
                match x {
                    Timezone::Local => assert(s[0] == x),
                    Timezone::Exchange => assert(s[1] == x),
                    Timezone::UTC => assert(s[2] == x),
                    Timezone::AmericaNewYork => assert(s[3] == x),
                    Timezone::AmericaChicago => assert(s[4] == x),
                    Timezone::AmericaDenver => assert(s[5] == x),
                    Timezone::AmericaLosAngeles => assert(s[6] == x),
                    Timezone::EuropeLondon => assert(s[7] == x),
                    Timezone::EuropeParis => assert(s[8] == x),
                    Timezone::EuropeBerlin => assert(s[9] == x),
                    Timezone::AsiaTokyo => assert(s[10] == x),
                    Timezone::AsiaHongKong => assert(s[11] == x),
                    Timezone::AsiaSingapore => assert(s[12] == x),
                    Timezone::AustraliaSydney => assert(s[13] == x),
                    Timezone::PacificAuckland => assert(s[14] == x),
                }
            }
        }
        &[
            Timezone::Local,
            Timezone::Exchange,
            Timezone::UTC,
            Timezone::AmericaNewYork,
            Timezone::AmericaChicago,
            Timezone::AmericaDenver,
            Timezone::AmericaLosAngeles,
            Timezone::EuropeLondon,
            Timezone::EuropeParis,
            Timezone::EuropeBerlin,
            Timezone::AsiaTokyo,
            Timezone::AsiaHongKong,
            Timezone::AsiaSingapore,
            Timezone::AustraliaSydney,
            Timezone::PacificAuckland,
        ]
    }

    pub fn name(&self) -> (r: &'static str)
        ensures
            r@ == self.spec_name(),
    {
        match self {
            Timezone::Local => "local",
            Timezone::Exchange => "exchange",
            Timezone::UTC => "UTC",
            Timezone::AmericaNewYork => "America/New_York",
            Timezone::AmericaChicago => "America/Chicago",
            Timezone::AmericaDenver => "America/Denver",
            Timezone::AmericaLosAngeles => "America/Los_Angeles",
            Timezone::EuropeLondon => "Europe/London",
            Timezone::EuropeParis => "Europe/Paris",
            Timezone::EuropeBerlin => "Europe/Berlin",
            Timezone::AsiaTokyo => "Asia/Tokyo",
            Timezone::AsiaHongKong => "Asia/Hong_Kong",
            Timezone::AsiaSingapore => "Asia/Singapore",
            Timezone::AustraliaSydney => "Australia/Sydney",
            Timezone::PacificAuckland => "Pacific/Auckland",
        }
    }

    pub fn display_name(&self) -> (r: &'static str)
        ensures
            r@ == self.spec_display_name(),
    {
        match self {
            Timezone::Local => "Local",
            Timezone::Exchange => "Exchange",
            Timezone::UTC => "UTC",
            Timezone::AmericaNewYork => "New York (EST/EDT)",
            Timezone::AmericaChicago => "Chicago (CST/CDT)",
            Timezone::AmericaDenver => "Denver (MST/MDT)",
            Timezone::AmericaLosAngeles => "Los Angeles (PST/PDT)",
            Timezone::EuropeLondon => "London (GMT/BST)",
            Timezone::EuropeParis => "Paris (CET/CEST)",
            Timezone::EuropeBerlin => "Berlin (CET/CEST)",
            Timezone::AsiaTokyo => "Tokyo (JST)",
            Timezone::AsiaHongKong => "Hong Kong (HKT)",
            Timezone::AsiaSingapore => "Singapore (SGT)",
            Timezone::AustraliaSydney => "Sydney (AEST/AEDT)",
            Timezone::PacificAuckland => "Auckland (NZST/NZDT)",
        }
    }

    /// Offset from UTC in seconds (for reference, actual offset varies by DST)
    pub fn standard_offset_secs(&self) -> (r: i32)
        ensures
            r == self.spec_standard_offset_secs(),
    {
        match self {
            Timezone::Local => 0,
            Timezone::Exchange => 0,
            Timezone::UTC => 0,
            Timezone::AmericaNewYork => -18000,
            Timezone::AmericaChicago => -21600,
            Timezone::AmericaDenver => -25200,
            Timezone::AmericaLosAngeles => -28800,
            Timezone::EuropeLondon => 0,
            Timezone::EuropeParis => 3600,
            Timezone::EuropeBerlin => 3600,
            Timezone::AsiaTokyo => 32400,
            Timezone::AsiaHongKong => 28800,
            Timezone::AsiaSingapore => 28800,
            Timezone::AustraliaSydney => 36000,
            Timezone::PacificAuckland => 43200,
        }
    }

    /// Text shown when this value is displayed.
    pub fn to_string(&self) -> (r: String)
        ensures
            r@ == self.spec_display_name(),
    {
        self.display_name().to_owned()
    }
}

impl Default for Timezone {
    fn default() -> (r: Self)
        ensures
            r == Timezone::Local,
    {
        Timezone::Local
    }
}

/// Price scale mode (determines how price is displayed)
///
/// Discriminant values:
/// Normal=0, Log=1, Percentage=2, IndexedTo100=3
#[derive(Debug, Clone, Copy, PartialEq, Eq, Hash, Structural)]
pub enum PriceScaleMode {
    /// Normal price scale
    Normal,
    /// Logarithmic scale
    Logarithmic,
    /// Percentage scale
    Percentage,
    /// Indexed to 100 scale
    IndexedTo100,
}

impl PriceScaleMode {
    pub open spec fn spec_name(self) -> Seq<char> {
        match self {
            PriceScaleMode::Normal => "normal"@,
            PriceScaleMode::Logarithmic => "log"@,
            PriceScaleMode::Percentage => "percentage"@,
            PriceScaleMode::IndexedTo100 => "indexedTo100"@,
        }
    }

    pub open spec fn spec_display_name(self) -> Seq<char> {
        match self {
            PriceScaleMode::Normal => "Normal"@,
            PriceScaleMode::Logarithmic => "Logarithmic"@,
            PriceScaleMode::Percentage => "Percentage"@,
            PriceScaleMode::IndexedTo100 => "Indexed to 100"@,
        }
    }

    pub open spec fn spec_all() -> Seq<PriceScaleMode> {
        seq![PriceScaleMode::Normal, PriceScaleMode::Logarithmic, PriceScaleMode::Percentage, PriceScaleMode::IndexedTo100]
    }

    pub fn all() -> (r: &'static [PriceScaleMode])
        ensures
            r@ == Self::spec_all(),
            forall|x: PriceScaleMode| #[trigger] r@.contains(x),
            r@.no_duplicates(),
    {
        proof {
            let s = Self::spec_all();
            assert forall|x: PriceScaleMode| #[trigger] s.contains(x) by {
                match x {
                    PriceScaleMode::Normal => assert(s[0] == x),
                    PriceScaleMode::Logarithmic => assert(s[1] == x),
                    PriceScaleMode::Percentage => assert(s[2] == x),
                    PriceScaleMode::IndexedTo100 => assert(s[3] == x),
                }
            }
        }
        &[
            PriceScaleMode::Normal,
            PriceScaleMode::Logarithmic,
            PriceScaleMode::Percentage,
            PriceScaleMode::IndexedTo100,
        ]
    }

    pub fn name(&self) -> (r: &'static str)
        ensures
            r@ == self.spec_name(),
    {
        match self {
            PriceScaleMode::Normal => "normal",
            PriceScaleMode::Logarithmic => "log",
            PriceScaleMode::Percentage => "percentage",
            PriceScaleMode::IndexedTo100 => "indexedTo100",
        }
    }

    pub fn display_name(&self) -> (r: &'static str)
        ensures
            r@ == self.spec_display_name(),
    {
        match self {
            PriceScaleMode::Normal => "Normal",
            PriceScaleMode::Logarithmic => "Logarithmic",
            PriceScaleMode::Percentage => "Percentage",
            PriceScaleMode::IndexedTo100 => "Indexed to 100",
        }
    }

    /// Text shown when this value is displayed.
    pub fn to_string(&self) -> (r: String)
        ensures
            r@ == self.spec_display_name(),
    {
        self.display_name().to_owned()
    }
}

impl Default for PriceScaleMode {
    fn default() -> (r: Self)
        ensures
            r == PriceScaleMode::Normal,
    {
        PriceScaleMode::Normal
    }
}

/// Magnet mode for drawing tools (snapping to bars)
#[derive(Debug, Clone, Copy, PartialEq, Eq, Hash, Structural)]
pub enum MagnetMode {
    /// No magnet/snapping
    Off,
    /// Weak magnet (close range)
    Weak,
    /// Strong magnet (wider range)
    Strong,
}

impl MagnetMode {
    pub open spec fn spec_name(self) -> Seq<char> {
        match self {
            MagnetMode::Off => "off"@,
            MagnetMode::Weak => "weak"@,
            MagnetMode::Strong => "strong"@,
        }
    }

    pub open spec fn spec_display_name(self) -> Seq<char> {
        match self {
            MagnetMode::Off => "Off"@,
            MagnetMode::Weak => "Weak"@,
            MagnetMode::Strong => "Strong"@,
        }
    }

    pub open spec fn spec_all() -> Seq<MagnetMode> {
        seq![MagnetMode::Off, MagnetMode::Weak, MagnetMode::Strong]
    }

    pub fn all() -> (r: &'static [MagnetMode])
        ensures
            r@ == Self::spec_all(),
            forall|x: MagnetMode| #[trigger] r@.contains(x),
            r@.no_duplicates(),
    {
        proof {
            let s = Self::spec_all();
            assert forall|x: MagnetMode| #[trigger] s.contains(x) by {
                match x {
                    MagnetMode::Off => assert(s[0] == x),
                    MagnetMode::Weak => assert(s[1] == x),
                    MagnetMode::Strong => assert(s[2] == x),
                }
            }
        }
        &[
            MagnetMode::Off,
            MagnetMode::Weak,
            MagnetMode::Strong,
        ]
    }

    pub fn name(&self) -> (r: &'static str)
        ensures
            r@ == self.spec_name(),
    {
        match self {
            MagnetMode::Off => "off",
            MagnetMode::Weak => "weak",
            MagnetMode::Strong => "strong",
        }
    }

    pub fn display_name(&self) -> (r: &'static str)
        ensures
            r@ == self.spec_display_name(),
    {
        match self {
            MagnetMode::Off => "Off",
            MagnetMode::Weak => "Weak",
            MagnetMode::Strong => "Strong",
        }
    }

    /// Text shown when this value is displayed.
    pub fn to_string(&self) -> (r: String)
        ensures
            r@ == self.spec_display_name(),
    {
        self.display_name().to_owned()
    }
}

impl Default for MagnetMode {
    fn default() -> (r: Self)
        ensures
            r == MagnetMode::Off,
    {
        MagnetMode::Off
    }
}

/// Layout orientation for panels and widgets
#[derive(Debug, Clone, Copy, PartialEq, Eq, Hash, Structural)]
pub enum Orientation {
    /// Horizontal layout
    Horizontal,
    /// Vertical layout
    Vertical,
    /// Auto-detect based on available space
    Auto,
}

impl Orientation {
    pub open spec fn spec_name(self) -> Seq<char> {
        match self {
            Orientation::Horizontal => "horizontal"@,
            Orientation::Vertical => "vertical"@,
            Orientation::Auto => "auto"@,
        }
    }

    pub open spec fn spec_display_name(self) -> Seq<char> {
        match self {
            Orientation::Horizontal => "Horizontal"@,
            Orientation::Vertical => "Vertical"@,
            Orientation::Auto => "Auto"@,
        }
    }

    pub open spec fn spec_all() -> Seq<Orientation> {
        seq![Orientation::Horizontal, Orientation::Vertical, Orientation::Auto]
    }

    pub fn all() -> (r: &'static [Orientation])
        ensures
            r@ == Self::spec_all(),
            forall|x: Orientation| #[trigger] r@.contains(x),
            r@.no_duplicates(),
    {
        proof {
            let s = Self::spec_all();
            assert forall|x: Orientation| #[trigger] s.contains(x) by {
                match x {
                    Orientation::Horizontal => assert(s[0] == x),
                    Orientation::Vertical => assert(s[1] == x),
                    Orientation::Auto => assert(s[2] == x),
                }
            }
        }
        &[
            Orientation::Horizontal,
            Orientation::Vertical,
            Orientation::Auto,
        ]
    }

    pub fn name(&self) -> (r: &'static str)
        ensures
            r@ == self.spec_name(),
    {
        match self {
            Orientation::Horizontal => "horizontal",
            Orientation::Vertical => "vertical",
            Orientation::Auto => "auto",
        }
    }

    pub fn display_name(&self) -> (r: &'static str)
        ensures
            r@ == self.spec_display_name(),
    {
        match self {
            Orientation::Horizontal => "Horizontal",
            Orientation::Vertical => "Vertical",
            Orientation::Auto => "Auto",
        }
    }

    /// Text shown when this value is displayed.
    pub fn to_string(&self) -> (r: String)
        ensures
            r@ == self.spec_display_name(),
    {
        self.display_name().to_owned()
    }
}

impl Default for Orientation {
    fn default() -> (r: Self)
        ensures
            r == Orientation::Horizontal,
    {
        Orientation::Horizontal
    }
}

/// Size presets for UI elements
#[derive(Debug, Clone, Copy, PartialEq, Eq, Hash, Structural)]
pub enum Size {
    /// Extra small
    XSmall,
    /// Small
    Small,
    /// Medium (default)
    Medium,
    /// Large
    Large,
    /// Extra large
    XLarge,
    /// Automatic sizing
    Auto,
}

impl Size {
    pub open spec fn spec_name(self) -> Seq<char> {
        match self {
            Size::XSmall => "xsmall"@,
            Size::Small => "small"@,
            Size::Medium => "medium"@,
            Size::Large => "large"@,
            Size::XLarge => "xlarge"@,
            Size::Auto => "auto"@,
        }
    }

    pub open spec fn spec_display_name(self) -> Seq<char> {
        match self {
            Size::XSmall => "Extra Small"@,
            Size::Small => "Small"@,
            Size::Medium => "Medium"@,
            Size::Large => "Large"@,
            Size::XLarge => "Extra Large"@,
            Size::Auto => "Auto"@,
        }
    }

    pub open spec fn spec_all() -> Seq<Size> {
        seq![Size::XSmall, Size::Small, Size::Medium, Size::Large, Size::XLarge, Size::Auto]
    }

    pub fn all() -> (r: &'static [Size])
        ensures
            r@ == Self::spec_all(),
            forall|x: Size| #[trigger] r@.contains(x),
            r@.no_duplicates(),
    {
        proof {
            let s = Self::spec_all();
            assert forall|x: Size| #[trigger] s.contains(x) by {
                match x {
                    Size::XSmall => assert(s[0] == x),
                    Size::Small => assert(s[1] == x),
                    Size::Medium => assert(s[2] == x),
                    Size::Large => assert(s[3] == x),
                    Size::XLarge => assert(s[4] == x),
                    Size::Auto => assert(s[5] == x),
                }
            }
        }
        &[
            Size::XSmall,
            Size::Small,
            Size::Medium,
            Size::Large,
            Size::XLarge,
            Size::Auto,
        ]
    }

    pub fn name(&self) -> (r: &'static str)
        ensures
            r@ == self.spec_name(),
    {
        match self {
            Size::XSmall => "xsmall",
            Size::Small => "small",
            Size::Medium => "medium",
            Size::Large => "large",
            Size::XLarge => "xlarge",
            Size::Auto => "auto",
        }
    }

    pub fn display_name(&self) -> (r: &'static str)
        ensures
            r@ == self.spec_display_name(),
    {
        match self {
            Size::XSmall => "Extra Small",
            Size::Small => "Small",
            Size::Medium => "Medium",
            Size::Large => "Large",
            Size::XLarge => "Extra Large",
            Size::Auto => "Auto",
        }
    }

    /// Text shown when this value is displayed.
    pub fn to_string(&self) -> (r: String)
        ensures
            r@ == self.spec_display_name(),
    {
        self.display_name().to_owned()
    }
}

impl Default for Size {
    fn default() -> (r: Self)
        ensures
            r == Size::Medium,
    {
        Size::Medium
    }
}

/// Resolution/Timeframe type
#[derive(Debug, Clone, Copy, PartialEq, Eq, Hash, Structural)]
pub enum Resolution {
    /// 1 minute
    M1,
    /// 3 minutes
    M3,
    /// 5 minutes
    M5,
    /// 15 minutes
    M15,
    /// 30 minutes
    M30,
    /// 1 hour
    H1,
    /// 2 hours
    H2,
    /// 4 hours
    H4,
    /// 1 day
    D1,
    /// 1 week
    W1,
    /// 1 month
    MN1,
}

impl Resolution {
    pub open spec fn spec_name(self) -> Seq<char> {
        match self {
            Resolution::M1 => "1"@,
            Resolution::M3 => "3"@,
            Resolution::M5 => "5"@,
            Resolution::M15 => "15"@,
            Resolution::M30 => "30"@,
            Resolution::H1 => "60"@,
            Resolution::H2 => "120"@,
            Resolution::H4 => "240"@,
            Resolution::D1 => "1D"@,
            Resolution::W1 => "1W"@,
            Resolution::MN1 => "1M"@,
        }
    }

    pub open spec fn spec_display_name(self) -> Seq<char> {
        match self {
            Resolution::M1 => "1 minute"@,
            Resolution::M3 => "3 minutes"@,
            Resolution::M5 => "5 minutes"@,
            Resolution::M15 => "15 minutes"@,
            Resolution::M30 => "30 minutes"@,
            Resolution::H1 => "1 hour"@,
            Resolution::H2 => "2 hours"@,
            Resolution::H4 => "4 hours"@,
            Resolution::D1 => "1 day"@,
            Resolution::W1 => "1 week"@,
            Resolution::MN1 => "1 month"@,
        }
    }

    pub open spec fn spec_seconds(self) -> u64 {
        match self {
            Resolution::M1 => 60,
            Resolution::M3 => 180,
            Resolution::M5 => 300,
            Resolution::M15 => 900,
            Resolution::M30 => 1800,
            Resolution::H1 => 3600,
            Resolution::H2 => 7200,
            Resolution::H4 => 14400,
            Resolution::D1 => 86400,
            Resolution::W1 => 604800,
            Resolution::MN1 => 2592000,
        }
    }

    pub open spec fn spec_minutes(self) -> u32 {
        match self {
            Resolution::M1 => 1,
            Resolution::M3 => 3,
            Resolution::M5 => 5,
            Resolution::M15 => 15,
            Resolution::M30 => 30,
            Resolution::H1 => 60,
            Resolution::H2 => 120,
            Resolution::H4 => 240,
            Resolution::D1 => 1440,
            Resolution::W1 => 10080,
            Resolution::MN1 => 43200,
        }
    }

    pub open spec fn spec_all() -> Seq<Resolution> {
        seq![Resolution::M1, Resolution::M3, Resolution::M5, Resolution::M15, Resolution::M30, Resolution::H1, Resolution::H2, Resolution::H4, Resolution::D1, Resolution::W1, Resolution::MN1]
    }

    pub fn all() -> (r: &'static [Resolution])
        ensures
            r@ == Self::spec_all(),
            forall|x: Resolution| #[trigger] r@.contains(x),
            r@.no_duplicates(),
    {
        proof {
            let s = Self::spec_all();
            assert forall|x: Resolution| #[trigger] s.contains(x) by {
                match x {
                    Resolution::M1 => assert(s[0] == x),
                    Resolution::M3 => assert(s[1] == x),
                    Resolution::M5 => assert(s[2] == x),
                    Resolution::M15 => assert(s[3] == x),
                    Resolution::M30 => assert(s[4] == x),
                    Resolution::H1 => assert(s[5] == x),
                    Resolution::H2 => assert(s[6] == x),
                    Resolution::H4 => assert(s[7] == x),
                    Resolution::D1 => assert(s[8] == x),
                    Resolution::W1 => assert(s[9] == x),
                    Resolution::MN1 => assert(s[10] == x),
                }
            }
        }
        &[
            Resolution::M1,
            Resolution::M3,
            Resolution::M5,
            Resolution::M15,
            Resolution::M30,
            Resolution::H1,
            Resolution::H2,
            Resolution::H4,
            Resolution::D1,
            Resolution::W1,
            Resolution::MN1,
        ]
    }

    pub fn name(&self) -> (r: &'static str)
        ensures
            r@ == self.spec_name(),
    {
        match self {
            Resolution::M1 => "1",
            Resolution::M3 => "3",
            Resolution::M5 => "5",
            Resolution::M15 => "15",
            Resolution::M30 => "30",
            Resolution::H1 => "60",
            Resolution::H2 => "120",
            Resolution::H4 => "240",
            Resolution::D1 => "1D",
            Resolution::W1 => "1W",
            Resolution::MN1 => "1M",
        }
    }

    pub fn display_name(&self) -> (r: &'static str)
        ensures
            r@ == self.spec_display_name(),
    {
        match self {
            Resolution::M1 => "1 minute",
            Resolution::M3 => "3 minutes",
            Resolution::M5 => "5 minutes",
            Resolution::M15 => "15 minutes",
            Resolution::M30 => "30 minutes",
            Resolution::H1 => "1 hour",
            Resolution::H2 => "2 hours",
            Resolution::H4 => "4 hours",
            Resolution::D1 => "1 day",
            Resolution::W1 => "1 week",
            Resolution::MN1 => "1 month",
        }
    }

    /// Duration in seconds
    pub fn seconds(&self) -> (r: u64)
        ensures
            r == self.spec_seconds(),
    {
        match self {
            Resolution::M1 => 60,
            Resolution::M3 => 180,
            Resolution::M5 => 300,
            Resolution::M15 => 900,
            Resolution::M30 => 1800,
            Resolution::H1 => 3600,
            Resolution::H2 => 7200,
            Resolution::H4 => 14400,
            Resolution::D1 => 86400,
            Resolution::W1 => 604800,
            Resolution::MN1 => 2592000,
        }
    }

    /// Minutes equivalent
    pub fn minutes(&self) -> (r: u32)
        ensures
            r == self.spec_minutes(),
    {
        match self {
            Resolution::M1 => 1,
            Resolution::M3 => 3,
            Resolution::M5 => 5,
            Resolution::M15 => 15,
            Resolution::M30 => 30,
            Resolution::H1 => 60,
            Resolution::H2 => 120,
            Resolution::H4 => 240,
            Resolution::D1 => 1440,
            Resolution::W1 => 10080,
            Resolution::MN1 => 43200,
        }
    }

    /// Text shown when this value is displayed.
    pub fn to_string(&self) -> (r: String)
        ensures
            r@ == self.spec_display_name(),
    {
        self.display_name().to_owned()
    }

    pub open spec fn spec_is_intraday(self) -> bool {
        matches!(
            self,
            Resolution::M1 | Resolution::M3 | Resolution::M5 | Resolution::M15 | Resolution::M30
                | Resolution::H1 | Resolution::H2 | Resolution::H4
        )
    }

    pub open spec fn spec_is_daily_or_higher(self) -> bool {
        matches!(self, Resolution::D1 | Resolution::W1 | Resolution::MN1)
    }

    /// Is intraday timeframe (less than 1 day)
    pub fn is_intraday(&self) -> (r: bool)
        ensures
            r == self.spec_is_intraday(),
            r <==> self.spec_seconds() < 86400,
    {
        matches!(
            self,
            Self::M1 | Self::M3 | Self::M5 | Self::M15 | Self::M30 | Self::H1 | Self::H2 | Self::H4
        )
    }

    /// Is daily or higher timeframe
    pub fn is_daily_or_higher(&self) -> (r: bool)
        ensures
            r == self.spec_is_daily_or_higher(),
            r <==> !self.spec_is_intraday(),
    {
        matches!(self, Self::D1 | Self::W1 | Self::MN1)
    }

    /// The resolution written by a wire-format string, if any.
    pub open spec fn spec_parse(value: Seq<char>) -> Option<Resolution> {
        if value == "1"@ {
            Some(Resolution::M1)
        } else if value == "3"@ {
            Some(Resolution::M3)
        } else if value == "5"@ {
            Some(Resolution::M5)
        } else if value == "15"@ {
            Some(Resolution::M15)
        } else if value == "30"@ {
            Some(Resolution::M30)
        } else if value == "60"@ {
            Some(Resolution::H1)
        } else if value == "120"@ {
            Some(Resolution::H2)
        } else if value == "240"@ {
            Some(Resolution::H4)
        } else if value == "1D"@ || value == "D"@ {
            Some(Resolution::D1)
        } else if value == "1W"@ || value == "W"@ {
            Some(Resolution::W1)
        } else if value == "1M"@ || value == "M"@ {
            Some(Resolution::MN1)
        } else {
            None
        }
    }

    /// Parses a wire-format resolution string such as `"15"` or `"1D"`.
    ///
    /// Fails with `Unknown resolution: <value>` for any other string.
    pub fn try_from(value: &str) -> (r: Result<Self, String>)
        ensures
            match Self::spec_parse(value@) {
                Some(res) => r == Ok::<Resolution, String>(res),
                None => r is Err && r->Err_0@ == "Unknown resolution: "@ + value@,
            },
    {
        if str_eq(value, "1") {
            Ok(Self::M1)
        } else if str_eq(value, "3") {
            Ok(Self::M3)
        } else if str_eq(value, "5") {
            Ok(Self::M5)
        } else if str_eq(value, "15") {
            Ok(Self::M15)
        } else if str_eq(value, "30") {
            Ok(Self::M30)
        } else if str_eq(value, "60") {
            Ok(Self::H1)
        } else if str_eq(value, "120") {
            Ok(Self::H2)
        } else if str_eq(value, "240") {
            Ok(Self::H4)
        } else if str_eq(value, "1D") || str_eq(value, "D") {
            Ok(Self::D1)
        } else if str_eq(value, "1W") || str_eq(value, "W") {
            Ok(Self::W1)
        } else if str_eq(value, "1M") || str_eq(value, "M") {
            Ok(Self::MN1)
        } else {
            let mut msg = "Unknown resolution: ".to_owned();
            push_str(&mut msg, value);
            Err(msg)
        }
    }
}

impl Default for Resolution {
    fn default() -> (r: Self)
        ensures
            r == Resolution::M1,
    {
        Resolution::M1
    }
}

/// Chart color theme
#[derive(Debug, Clone, Copy, PartialEq, Eq, Hash, Structural)]
pub enum ChartTheme {
    /// Light theme (white background)
    Light,
    /// Dark theme (dark background)
    Dark,
    /// Auto-detect based on system preference
    Auto,
}

impl ChartTheme {
    pub open spec fn spec_name(self) -> Seq<char> {
        match self {
            ChartTheme::Light => "light"@,
            ChartTheme::Dark => "dark"@,
            ChartTheme::Auto => "auto"@,
        }
    }

    pub open spec fn spec_display_name(self) -> Seq<char> {
        match self {
            ChartTheme::Light => "Light"@,
            ChartTheme::Dark => "Dark"@,
            ChartTheme::Auto => "Auto"@,
        }
    }

    pub open spec fn spec_all() -> Seq<ChartTheme> {
        seq![ChartTheme::Light, ChartTheme::Dark, ChartTheme::Auto]
    }

    pub fn all() -> (r: &'static [ChartTheme])
        ensures
            r@ == Self::spec_all(),
            forall|x: ChartTheme| #[trigger] r@.contains(x),
            r@.no_duplicates(),
    {
        proof {
            let s = Self::spec_all();
            assert forall|x: ChartTheme| #[trigger] s.contains(x) by {
                match x {
                    ChartTheme::Light => assert(s[0] == x),
                    ChartTheme::Dark => assert(s[1] == x),
                    ChartTheme::Auto => assert(s[2] == x),
                }
            }
        }
        &[
            ChartTheme::Light,
            ChartTheme::Dark,
            ChartTheme::Auto,
        ]
    }

    pub fn name(&self) -> (r: &'static str)
        ensures
            r@ == self.spec_name(),
    {
        match self {
            ChartTheme::Light => "light",
            ChartTheme::Dark => "dark",
            ChartTheme::Auto => "auto",
        }
    }

    pub fn display_name(&self) -> (r: &'static str)
        ensures
            r@ == self.spec_display_name(),
    {
        match self {
            ChartTheme::Light => "Light",
            ChartTheme::Dark => "Dark",
            ChartTheme::Auto => "Auto",
        }
    }

    /// Text shown when this value is displayed.
    pub fn to_string(&self) -> (r: String)
        ensures
            r@ == self.spec_display_name(),
    {
        self.display_name().to_owned()
    }

    /// Is dark mode (for actual rendering)
    pub fn is_dark(&self, system_is_dark: bool) -> (r: bool)
        ensures
            r == match self {
                ChartTheme::Light => false,
                ChartTheme::Dark => true,
                ChartTheme::Auto => system_is_dark,
            },
    {
        match self {
            Self::Light => false,
            Self::Dark => true,
            Self::Auto => system_is_dark,
        }
    }
}

impl Default for ChartTheme {
    fn default() -> (r: Self)
        ensures
            r == ChartTheme::Light,
    {
        ChartTheme::Light
    }
}

/// Crosshair mode
#[derive(Debug, Clone, Copy, PartialEq, Eq, Hash, Structural)]
pub enum CrosshairMode {
    /// Crosshair hidden
    Hidden,
    /// Vertical line only
    Vertical,
    /// Horizontal line only
    Horizontal,
    /// Both vertical and horizontal lines
    Both,
}

impl CrosshairMode {
    pub open spec fn spec_name(self) -> Seq<char> {
        match self {
            CrosshairMode::Hidden => "hidden"@,
            CrosshairMode::Vertical => "vertical"@,
            CrosshairMode::Horizontal => "horizontal"@,
            CrosshairMode::Both => "both"@,
        }
    }

    pub open spec fn spec_display_name(self) -> Seq<char> {
        match self {
            CrosshairMode::Hidden => "Hidden"@,
            CrosshairMode::Vertical => "Vertical"@,
            CrosshairMode::Horizontal => "Horizontal"@,
            CrosshairMode::Both => "Both"@,
        }
    }

    pub open spec fn spec_all() -> Seq<CrosshairMode> {
        seq![CrosshairMode::Hidden, CrosshairMode::Vertical, CrosshairMode::Horizontal, CrosshairMode::Both]
    }

    pub fn all() -> (r: &'static [CrosshairMode])
        ensures
            r@ == Self::spec_all(),
            forall|x: CrosshairMode| #[trigger] r@.contains(x),
            r@.no_duplicates(),
    {
        proof {
            let s = Self::spec_all();
            assert forall|x: CrosshairMode| #[trigger] s.contains(x) by {
                match x {
                    CrosshairMode::Hidden => assert(s[0] == x),
                    CrosshairMode::Vertical => assert(s[1] == x),
                    CrosshairMode::Horizontal => assert(s[2] == x),
                    CrosshairMode::Both => assert(s[3] == x),
                }
            }
        }
        &[
            CrosshairMode::Hidden,
            CrosshairMode::Vertical,
            CrosshairMode::Horizontal,
            CrosshairMode::Both,
        ]
    }

    pub fn name(&self) -> (r: &'static str)
        ensures
            r@ == self.spec_name(),
    {
        match self {
            CrosshairMode::Hidden => "hidden",
            CrosshairMode::Vertical => "vertical",
            CrosshairMode::Horizontal => "horizontal",
            CrosshairMode::Both => "both",
        }
    }

    pub fn display_name(&self) -> (r: &'static str)
        ensures
            r@ == self.spec_display_name(),
    {
        match self {
            CrosshairMode::Hidden => "Hidden",
            CrosshairMode::Vertical => "Vertical",
            CrosshairMode::Horizontal => "Horizontal",
            CrosshairMode::Both => "Both",
        }
    }

    /// Text shown when this value is displayed.
    pub fn to_string(&self) -> (r: String)
        ensures
            r@ == self.spec_display_name(),
    {
        self.display_name().to_owned()
    }
}

impl Default for CrosshairMode {
    fn default() -> (r: Self)
        ensures
            r == CrosshairMode::Hidden,
    {
        CrosshairMode::Hidden
    }
}

/// Price line source (which price point to use for line charts)
#[derive(Debug, Clone, Copy, PartialEq, Eq, Hash, Structural)]
pub enum PriceLineSource {
    /// Use closing price
    Close,
    /// Use opening price
    Open,
    /// Use high price
    High,
    /// Use low price
    Low,
    /// Use typical price (H+L+C)/3
    Typical,
    /// Use median price (H+L)/2
    Median,
    /// Use OHLC average (O+H+L+C)/4
    OHLC,
    /// Use weighted close (H+L+C+C)/4
    WeightedClose,
}

impl PriceLineSource {
    pub open spec fn spec_name(self) -> Seq<char> {
        match self {
            PriceLineSource::Close => "close"@,
            PriceLineSource::Open => "open"@,
            PriceLineSource::High => "high"@,
            PriceLineSource::Low => "low"@,
            PriceLineSource::Typical => "typical"@,
            PriceLineSource::Median => "median"@,
            PriceLineSource::OHLC => "ohlc"@,
            PriceLineSource::WeightedClose => "weighted"@,
        }
    }

    pub open spec fn spec_display_name(self) -> Seq<char> {
        match self {
            PriceLineSource::Close => "Close"@,
            PriceLineSource::Open => "Open"@,
            PriceLineSource::High => "High"@,
            PriceLineSource::Low => "Low"@,
            PriceLineSource::Typical => "Typical Price"@,
            PriceLineSource::Median => "Median Price"@,
            PriceLineSource::OHLC => "OHLC Average"@,
            PriceLineSource::WeightedClose => "Weighted Close"@,
        }
    }

    pub open spec fn spec_all() -> Seq<PriceLineSource> {
        seq![PriceLineSource::Close, PriceLineSource::Open, PriceLineSource::High, PriceLineSource::Low, PriceLineSource::Typical, PriceLineSource::Median, PriceLineSource::OHLC, PriceLineSource::WeightedClose]
    }

    pub fn all() -> (r: &'static [PriceLineSource])
        ensures
            r@ == Self::spec_all(),
            forall|x: PriceLineSource| #[trigger] r@.contains(x),
            r@.no_duplicates(),
    {
        proof {
            let s = Self::spec_all();
            assert forall|x: PriceLineSource| #[trigger] s.contains(x) by {
                match x {
                    PriceLineSource::Close => assert(s[0] == x),
                    PriceLineSource::Open => assert(s[1] == x),
                    PriceLineSource::High => assert(s[2] == x),
                    PriceLineSource::Low => assert(s[3] == x),
                    PriceLineSource::Typical => assert(s[4] == x),
                    PriceLineSource::Median => assert(s[5] == x),
                    PriceLineSource::OHLC => assert(s[6] == x),
                    PriceLineSource::WeightedClose => assert(s[7] == x),
                }
            }
        }
        &[
            PriceLineSource::Close,
            PriceLineSource::Open,
            PriceLineSource::High,
            PriceLineSource::Low,
            PriceLineSource::Typical,
            PriceLineSource::Median,
            PriceLineSource::OHLC,
            PriceLineSource::WeightedClose,
        ]
    }

    pub fn name(&self) -> (r: &'static str)
        ensures
            r@ == self.spec_name(),
    {
        match self {
            PriceLineSource::Close => "close",
            PriceLineSource::Open => "open",
            PriceLineSource::High => "high",
            PriceLineSource::Low => "low",
            PriceLineSource::Typical => "typical",
            PriceLineSource::Median => "median",
            PriceLineSource::OHLC => "ohlc",
            PriceLineSource::WeightedClose => "weighted",
        }
    }

    pub fn display_name(&self) -> (r: &'static str)
        ensures
            r@ == self.spec_display_name(),
    {
        match self {
            PriceLineSource::Close => "Close",
            PriceLineSource::Open => "Open",
            PriceLineSource::High => "High",
            PriceLineSource::Low => "Low",
            PriceLineSource::Typical => "Typical Price",
            PriceLineSource::Median => "Median Price",
            PriceLineSource::OHLC => "OHLC Average",
            PriceLineSource::WeightedClose => "Weighted Close",
        }
    }

    /// Text shown when this value is displayed.
    pub fn to_string(&self) -> (r: String)
        ensures
            r@ == self.spec_display_name(),
    {
        self.display_name().to_owned()
    }
}

impl Default for PriceLineSource {
    fn default() -> (r: Self)
        ensures
            r == PriceLineSource::Close,
    {
        PriceLineSource::Close
    }
}

/// Scale location (where price/time scales appear)
#[derive(Debug, Clone, Copy, PartialEq, Eq, Hash, Structural)]
pub enum ScaleLocation {
    /// Scale on the right side
    Right,
    /// Scale on the left side
    Left,
    /// Scale on both sides
    Both,
    /// No scale shown
    NoScale,
}

impl ScaleLocation {
    pub open spec fn spec_name(self) -> Seq<char> {
        match self {
            ScaleLocation::Right => "right"@,
            ScaleLocation::Left => "left"@,
            ScaleLocation::Both => "both"@,
            ScaleLocation::NoScale => "none"@,
        }
    }

    pub open spec fn spec_display_name(self) -> Seq<char> {
        match self {
            ScaleLocation::Right => "Right"@,
            ScaleLocation::Left => "Left"@,
            ScaleLocation::Both => "Both"@,
            ScaleLocation::NoScale => "None"@,
        }
    }

    pub open spec fn spec_all() -> Seq<ScaleLocation> {
        seq![ScaleLocation::Right, ScaleLocation::Left, ScaleLocation::Both, ScaleLocation::NoScale]
    }

    pub fn all() -> (r: &'static [ScaleLocation])
        ensures
            r@ == Self::spec_all(),
            forall|x: ScaleLocation| #[trigger] r@.contains(x),
            r@.no_duplicates(),
    {
        proof {
            let s = Self::spec_all();
            assert forall|x: ScaleLocation| #[trigger] s.contains(x) by {
                match x {
                    ScaleLocation::Right => assert(s[0] == x),
                    ScaleLocation::Left => assert(s[1] == x),
                    ScaleLocation::Both => assert(s[2] == x),
                    ScaleLocation::NoScale => assert(s[3] == x),
                }
            }
        }
        &[
            ScaleLocation::Right,
            ScaleLocation::Left,
            ScaleLocation::Both,
            ScaleLocation::NoScale,
        ]
    }

    pub fn name(&self) -> (r: &'static str)
        ensures
            r@ == self.spec_name(),
    {
        match self {
            ScaleLocation::Right => "right",
            ScaleLocation::Left => "left",
            ScaleLocation::Both => "both",
            ScaleLocation::NoScale => "none",
        }
    }

    pub fn display_name(&self) -> (r: &'static str)
        ensures
            r@ == self.spec_display_name(),
    {
        match self {
            ScaleLocation::Right => "Right",
            ScaleLocation::Left => "Left",
            ScaleLocation::Both => "Both",
            ScaleLocation::NoScale => "None",
        }
    }

    /// Text shown when this value is displayed.
    pub fn to_string(&self) -> (r: String)
        ensures
            r@ == self.spec_display_name(),
    {
        self.display_name().to_owned()
    }
}

impl Default for ScaleLocation {
    fn default() -> (r: Self)
        ensures
            r == ScaleLocation::Right,
    {
        ScaleLocation::Right
    }
}

/// Background type for panels
#[derive(Debug, Clone, Copy, PartialEq, Eq, Hash, Structural)]
pub enum BackgroundType {
    /// Solid color background
    Solid,
    /// Vertical gradient
    VerticalGradient,
    /// Horizontal gradient
    HorizontalGradient,
    /// Transparent background
    Transparent,
}

impl BackgroundType {
    pub open spec fn spec_name(self) -> Seq<char> {
        match self {
            BackgroundType::Solid => "solid"@,
            BackgroundType::VerticalGradient => "gradient_vertical"@,
            BackgroundType::HorizontalGradient => "gradient_horizontal"@,
            BackgroundType::Transparent => "transparent"@,
        }
    }

    pub open spec fn spec_display_name(self) -> Seq<char> {
        match self {
            BackgroundType::Solid => "Solid"@,
            BackgroundType::VerticalGradient => "Vertical Gradient"@,
            BackgroundType::HorizontalGradient => "Horizontal Gradient"@,
            BackgroundType::Transparent => "Transparent"@,
        }
    }

    pub open spec fn spec_all() -> Seq<BackgroundType> {
        seq![BackgroundType::Solid, BackgroundType::VerticalGradient, BackgroundType::HorizontalGradient, BackgroundType::Transparent]
    }

    pub fn all() -> (r: &'static [BackgroundType])
        ensures
            r@ == Self::spec_all(),
            forall|x: BackgroundType| #[trigger] r@.contains(x),
            r@.no_duplicates(),
    {
        proof {
            let s = Self::spec_all();
            assert forall|x: BackgroundType| #[trigger] s.contains(x) by {
                match x {
                    BackgroundType::Solid => assert(s[0] == x),
                    BackgroundType::VerticalGradient => assert(s[1] == x),
                    BackgroundType::HorizontalGradient => assert(s[2] == x),
                    BackgroundType::Transparent => assert(s[3] == x),
                }
            }
        }
        &[
            BackgroundType::Solid,
            BackgroundType::VerticalGradient,
            BackgroundType::HorizontalGradient,
            BackgroundType::Transparent,
        ]
    }

    pub fn name(&self) -> (r: &'static str)
        ensures
            r@ == self.spec_name(),
    {
        match self {
            BackgroundType::Solid => "solid",
            BackgroundType::VerticalGradient => "gradient_vertical",
            BackgroundType::HorizontalGradient => "gradient_horizontal",
            BackgroundType::Transparent => "transparent",
        }
    }

    pub fn display_name(&self) -> (r: &'static str)
        ensures
            r@ == self.spec_display_name(),
    {
        match self {
            BackgroundType::Solid => "Solid",
            BackgroundType::VerticalGradient => "Vertical Gradient",
            BackgroundType::HorizontalGradient => "Horizontal Gradient",
            BackgroundType::Transparent => "Transparent",
        }
    }

    /// Text shown when this value is displayed.
    pub fn to_string(&self) -> (r: String)
        ensures
            r@ == self.spec_display_name(),
    {
        self.display_name().to_owned()
    }
}

impl Default for BackgroundType {
    fn default() -> (r: Self)
        ensures
            r == BackgroundType::Solid,
    {
        BackgroundType::Solid
    }
}

/// Chart style -- defines how price data is visualized.
///
/// The wire-protocol discriminant of each style is given by [`ChartStyle::tv_value`].
#[derive(Debug, Clone, Copy, PartialEq, Eq, Hash, Structural)]
pub enum ChartStyle {
    /// Traditional OHLC bars (vertical line with open/close ticks).
    Bar,
    /// Japanese candlestick chart (default).
    Candle,
    /// Simple line chart connecting close prices.
    Line,
    /// Area chart (line with filled region below).
    Area,
    /// Renko bricks -- requires [`ChartStyleParameters`].
    Renko,
    /// Kagi lines -- requires [`ChartStyleParameters`].
    Kagi,
    /// Point & Figure columns -- requires [`ChartStyleParameters`].
    PnF,
    /// Three-Line Break chart -- requires [`ChartStyleParameters`].
    LineBreak,
    /// Heikin Ashi (averaged) candles.
    HeikinAshi,
    /// Hollow candlestick (body outlined for bullish, filled for bearish).
    HollowCandle,
    /// Baseline chart with a configurable reference level.
    Baseline,
    /// High-Low range bars.
    HighLow,
    /// Vertical column bars (volume-style).
    Column,
    /// Line chart with circular data-point markers.
    LineWithMarkers,
    /// Step line (horizontal then vertical segments).
    Stepline,
    /// HLC area chart.
    HLCArea,
    /// Volume-weighted candles.
    VolCandle,
    /// HLC bars (no open tick).
    HLCBars,
}

impl ChartStyle {
    pub open spec fn spec_tv_id(self) -> Seq<char> {
        match self {
            ChartStyle::Bar => "Bar"@,
            ChartStyle::Candle => "Candle"@,
            ChartStyle::Line => "Line"@,
            ChartStyle::Area => "Area"@,
            ChartStyle::Renko => "Renko"@,
            ChartStyle::Kagi => "Kagi"@,
            ChartStyle::PnF => "PnF"@,
            ChartStyle::LineBreak => "LineBreak"@,
            ChartStyle::HeikinAshi => "HeikinAshi"@,
            ChartStyle::HollowCandle => "HollowCandle"@,
            ChartStyle::Baseline => "Baseline"@,
            ChartStyle::HighLow => "HiLo"@,
            ChartStyle::Column => "Column"@,
            ChartStyle::LineWithMarkers => "LineWithMarkers"@,
            ChartStyle::Stepline => "Stepline"@,
            ChartStyle::HLCArea => "HLCArea"@,
            ChartStyle::VolCandle => "VolCandle"@,
            ChartStyle::HLCBars => "HLCBars"@,
        }
    }

    pub open spec fn spec_display_name(self) -> Seq<char> {
        match self {
            ChartStyle::Bar => "Bars"@,
            ChartStyle::Candle => "Candles"@,
            ChartStyle::Line => "Line"@,
            ChartStyle::Area => "Area"@,
            ChartStyle::Renko => "Renko"@,
            ChartStyle::Kagi => "Kagi"@,
            ChartStyle::PnF => "Point & Figure"@,
            ChartStyle::LineBreak => "Line Break"@,
            ChartStyle::HeikinAshi => "Heikin Ashi"@,
            ChartStyle::HollowCandle => "Hollow Candles"@,
            ChartStyle::Baseline => "Baseline"@,
            ChartStyle::HighLow => "High-Low"@,
            ChartStyle::Column => "Column"@,
            ChartStyle::LineWithMarkers => "Line with Markers"@,
            ChartStyle::Stepline => "Step Line"@,
            ChartStyle::HLCArea => "HLC Area"@,
            ChartStyle::VolCandle => "Volume Candles"@,
            ChartStyle::HLCBars => "HLC Bars"@,
        }
    }

    pub open spec fn spec_all() -> Seq<ChartStyle> {
        seq![ChartStyle::Bar, ChartStyle::Candle, ChartStyle::Line, ChartStyle::Area, ChartStyle::Renko, ChartStyle::Kagi, ChartStyle::PnF, ChartStyle::LineBreak, ChartStyle::HeikinAshi, ChartStyle::HollowCandle, ChartStyle::Baseline, ChartStyle::HighLow, ChartStyle::Column, ChartStyle::LineWithMarkers, ChartStyle::Stepline, ChartStyle::HLCArea, ChartStyle::VolCandle, ChartStyle::HLCBars]
    }

    pub fn all() -> (r: &'static [ChartStyle])
        ensures
            r@ == Self::spec_all(),
            forall|x: ChartStyle| #[trigger] r@.contains(x),
            r@.no_duplicates(),
    {
        proof {
            let s = Self::spec_all();
            assert forall|x: ChartStyle| #[trigger] s.contains(x) by {
                match x {
                    ChartStyle::Bar => assert(s[0] == x),
                    ChartStyle::Candle => assert(s[1] == x),
                    ChartStyle::Line => assert(s[2] == x),
                    ChartStyle::Area => assert(s[3] == x),
                    ChartStyle::Renko => assert(s[4] == x),
                    ChartStyle::Kagi => assert(s[5] == x),
                    ChartStyle::PnF => assert(s[6] == x),
                    ChartStyle::LineBreak => assert(s[7] == x),
                    ChartStyle::HeikinAshi => assert(s[8] == x),
                    ChartStyle::HollowCandle => assert(s[9] == x),
                    ChartStyle::Baseline => assert(s[10] == x),
                    ChartStyle::HighLow => assert(s[11] == x),
                    ChartStyle::Column => assert(s[12] == x),
                    ChartStyle::LineWithMarkers => assert(s[13] == x),
                    ChartStyle::Stepline => assert(s[14] == x),
                    ChartStyle::HLCArea => assert(s[15] == x),
                    ChartStyle::VolCandle => assert(s[16] == x),
                    ChartStyle::HLCBars => assert(s[17] == x),
                }
            }
        }
        &[
            ChartStyle::Bar,
            ChartStyle::Candle,
            ChartStyle::Line,
            ChartStyle::Area,
            ChartStyle::Renko,
            ChartStyle::Kagi,
            ChartStyle::PnF,
            ChartStyle::LineBreak,
            ChartStyle::HeikinAshi,
            ChartStyle::HollowCandle,
            ChartStyle::Baseline,
            ChartStyle::HighLow,
            ChartStyle::Column,
            ChartStyle::LineWithMarkers,
            ChartStyle::Stepline,
            ChartStyle::HLCArea,
            ChartStyle::VolCandle,
            ChartStyle::HLCBars,
        ]
    }

    /// TradingView string identifier for this style.
    pub fn tv_id(&self) -> (r: &'static str)
        ensures
            r@ == self.spec_tv_id(),
    {
        match self {
            ChartStyle::Bar => "Bar",
            ChartStyle::Candle => "Candle",
            ChartStyle::Line => "Line",
            ChartStyle::Area => "Area",
            ChartStyle::Renko => "Renko",
            ChartStyle::Kagi => "Kagi",
            ChartStyle::PnF => "PnF",
            ChartStyle::LineBreak => "LineBreak",
            ChartStyle::HeikinAshi => "HeikinAshi",
            ChartStyle::HollowCandle => "HollowCandle",
            ChartStyle::Baseline => "Baseline",
            ChartStyle::HighLow => "HiLo",
            ChartStyle::Column => "Column",
            ChartStyle::LineWithMarkers => "LineWithMarkers",
            ChartStyle::Stepline => "Stepline",
            ChartStyle::HLCArea => "HLCArea",
            ChartStyle::VolCandle => "VolCandle",
            ChartStyle::HLCBars => "HLCBars",
        }
    }

    pub fn display_name(&self) -> (r: &'static str)
        ensures
            r@ == self.spec_display_name(),
    {
        match self {
            ChartStyle::Bar => "Bars",
            ChartStyle::Candle => "Candles",
            ChartStyle::Line => "Line",
            ChartStyle::Area => "Area",
            ChartStyle::Renko => "Renko",
            ChartStyle::Kagi => "Kagi",
            ChartStyle::PnF => "Point & Figure",
            ChartStyle::LineBreak => "Line Break",
            ChartStyle::HeikinAshi => "Heikin Ashi",
            ChartStyle::HollowCandle => "Hollow Candles",
            ChartStyle::Baseline => "Baseline",
            ChartStyle::HighLow => "High-Low",
            ChartStyle::Column => "Column",
            ChartStyle::LineWithMarkers => "Line with Markers",
            ChartStyle::Stepline => "Step Line",
            ChartStyle::HLCArea => "HLC Area",
            ChartStyle::VolCandle => "Volume Candles",
            ChartStyle::HLCBars => "HLC Bars",
        }
    }

    /// Text shown when this value is displayed.
    pub fn to_string(&self) -> (r: String)
        ensures
            r@ == self.spec_display_name(),
    {
        self.display_name().to_owned()
    }

    pub open spec fn spec_tv_value(self) -> u8 {
        match self {
            ChartStyle::Bar => 0,
            ChartStyle::Candle => 1,
            ChartStyle::Line => 2,
            ChartStyle::Area => 3,
            ChartStyle::Renko => 4,
            ChartStyle::Kagi => 5,
            ChartStyle::PnF => 6,
            ChartStyle::LineBreak => 7,
            ChartStyle::HeikinAshi => 8,
            ChartStyle::HollowCandle => 9,
            ChartStyle::Baseline => 10,
            ChartStyle::HighLow => 12,
            ChartStyle::Column => 13,
            ChartStyle::LineWithMarkers => 14,
            ChartStyle::Stepline => 15,
            ChartStyle::HLCArea => 16,
            ChartStyle::VolCandle => 19,
            ChartStyle::HLCBars => 21,
        }
    }

    pub open spec fn spec_requires_parameters(self) -> bool {
        matches!(
            self,
            ChartStyle::Renko | ChartStyle::Kagi | ChartStyle::PnF | ChartStyle::LineBreak
                | ChartStyle::Baseline
        )
    }

    /// Wire-protocol discriminant value.
    pub fn tv_value(&self) -> (r: u8)
        ensures
            r == self.spec_tv_value(),
    {
        match self {
            ChartStyle::Bar => 0,
            ChartStyle::Candle => 1,
            ChartStyle::Line => 2,
            ChartStyle::Area => 3,
            ChartStyle::Renko => 4,
            ChartStyle::Kagi => 5,
            ChartStyle::PnF => 6,
            ChartStyle::LineBreak => 7,
            ChartStyle::HeikinAshi => 8,
            ChartStyle::HollowCandle => 9,
            ChartStyle::Baseline => 10,
            ChartStyle::HighLow => 12,
            ChartStyle::Column => 13,
            ChartStyle::LineWithMarkers => 14,
            ChartStyle::Stepline => 15,
            ChartStyle::HLCArea => 16,
            ChartStyle::VolCandle => 19,
            ChartStyle::HLCBars => 21,
        }
    }

    /// Whether this chart style requires special parameters
    pub fn requires_parameters(&self) -> (r: bool)
        ensures
            r == self.spec_requires_parameters(),
    {
        matches!(self, Self::Renko | Self::Kagi | Self::PnF | Self::LineBreak | Self::Baseline)
    }
}

impl Default for ChartStyle {
    fn default() -> (r: Self)
        ensures
            r == ChartStyle::Candle,
    {
        ChartStyle::Candle
    }
}

/// Color Type - Defines color representation formats
#[derive(Debug, Clone, Copy, PartialEq, Eq, Hash, Structural)]
pub enum ColorType {
    /// Hex color string (#RRGGBB or #RRGGBBAA)
    Hex,
    /// RGB array [R, G, B]
    Rgb,
    /// RGBA array [R, G, B, A]
    Rgba,
    /// Color name (e.g., "red", "blue")
    Named,
}

impl ColorType {
    pub open spec fn spec_name(self) -> Seq<char> {
        match self {
            ColorType::Hex => "hex"@,
            ColorType::Rgb => "rgb"@,
            ColorType::Rgba => "rgba"@,
            ColorType::Named => "named"@,
        }
    }

    pub open spec fn spec_all() -> Seq<ColorType> {
        seq![ColorType::Hex, ColorType::Rgb, ColorType::Rgba, ColorType::Named]
    }

    pub fn all() -> (r: &'static [ColorType])
        ensures
            r@ == Self::spec_all(),
            forall|x: ColorType| #[trigger] r@.contains(x),
            r@.no_duplicates(),
    {
        proof {
            let s = Self::spec_all();
            assert forall|x: ColorType| #[trigger] s.contains(x) by {
                match x {
                    ColorType::Hex => assert(s[0] == x),
                    ColorType::Rgb => assert(s[1] == x),
                    ColorType::Rgba => assert(s[2] == x),
                    ColorType::Named => assert(s[3] == x),
                }
            }
        }
        &[
            ColorType::Hex,
            ColorType::Rgb,
            ColorType::Rgba,
            ColorType::Named,
        ]
    }

    pub fn name(&self) -> (r: &'static str)
        ensures
            r@ == self.spec_name(),
    {
        match self {
            ColorType::Hex => "hex",
            ColorType::Rgb => "rgb",
            ColorType::Rgba => "rgba",
            ColorType::Named => "named",
        }
    }
}

impl Default for ColorType {
    fn default() -> (r: Self)
        ensures
            r == ColorType::Hex,
    {
        ColorType::Hex
    }
}

/// Override Line Style - Line styles for study/drawing overrides
#[derive(Debug, Clone, Copy, PartialEq, Eq, Hash, Structural)]
pub enum OverrideLineStyle {
    /// Solid line
    Solid,
    /// Dashed line
    Dashed,
    /// Dotted line
    Dotted,
    /// Large dashed
    LargeDashed,
    /// Sparse dotted
    SparseDotted,
}

impl OverrideLineStyle {
    pub open spec fn spec_name(self) -> Seq<char> {
        match self {
            OverrideLineStyle::Solid => "solid"@,
            OverrideLineStyle::Dashed => "dashed"@,
            OverrideLineStyle::Dotted => "dotted"@,
            OverrideLineStyle::LargeDashed => "large_dashed"@,
            OverrideLineStyle::SparseDotted => "sparse_dotted"@,
        }
    }

    pub open spec fn spec_tv_value(self) -> i32 {
        match self {
            OverrideLineStyle::Solid => 0,
            OverrideLineStyle::Dashed => 1,
            OverrideLineStyle::Dotted => 2,
            OverrideLineStyle::LargeDashed => 3,
            OverrideLineStyle::SparseDotted => 4,
        }
    }

    pub open spec fn spec_all() -> Seq<OverrideLineStyle> {
        seq![OverrideLineStyle::Solid, OverrideLineStyle::Dashed, OverrideLineStyle::Dotted, OverrideLineStyle::LargeDashed, OverrideLineStyle::SparseDotted]
    }

    pub fn all() -> (r: &'static [OverrideLineStyle])
        ensures
            r@ == Self::spec_all(),
            forall|x: OverrideLineStyle| #[trigger] r@.contains(x),
            r@.no_duplicates(),
    {
        proof {
            let s = Self::spec_all();
            assert forall|x: OverrideLineStyle| #[trigger] s.contains(x) by {
                match x {
                    OverrideLineStyle::Solid => assert(s[0] == x),
                    OverrideLineStyle::Dashed => assert(s[1] == x),
                    OverrideLineStyle::Dotted => assert(s[2] == x),
                    OverrideLineStyle::LargeDashed => assert(s[3] == x),
                    OverrideLineStyle::SparseDotted => assert(s[4] == x),
                }
            }
        }
        &[
            OverrideLineStyle::Solid,
            OverrideLineStyle::Dashed,
            OverrideLineStyle::Dotted,
            OverrideLineStyle::LargeDashed,
            OverrideLineStyle::SparseDotted,
        ]
    }

    pub fn name(&self) -> (r: &'static str)
        ensures
            r@ == self.spec_name(),
    {
        match self {
            OverrideLineStyle::Solid => "solid",
            OverrideLineStyle::Dashed => "dashed",
            OverrideLineStyle::Dotted => "dotted",
            OverrideLineStyle::LargeDashed => "large_dashed",
            OverrideLineStyle::SparseDotted => "sparse_dotted",
        }
    }

    pub fn tv_value(&self) -> (r: i32)
        ensures
            r == self.spec_tv_value(),
    {
        match self {
            OverrideLineStyle::Solid => 0,
            OverrideLineStyle::Dashed => 1,
            OverrideLineStyle::Dotted => 2,
            OverrideLineStyle::LargeDashed => 3,
            OverrideLineStyle::SparseDotted => 4,
        }
    }
}

impl Default for OverrideLineStyle {
    fn default() -> (r: Self)
        ensures
            r == OverrideLineStyle::Solid,
    {
        OverrideLineStyle::Solid
    }
}

/// Override Price Axis Last Value Mode
#[derive(Debug, Clone, Copy, PartialEq, Eq, Hash, Structural)]
pub enum OverridePriceAxisLastValueMode {
    /// Last value is shown
    LastValue,
    /// Last value is hidden
    LastValueHidden,
    /// Last value and previous close are shown
    LastValueAndPreviousClose,
}

impl OverridePriceAxisLastValueMode {
    pub open spec fn spec_name(self) -> Seq<char> {
        match self {
            OverridePriceAxisLastValueMode::LastValue => "last_value"@,
            OverridePriceAxisLastValueMode::LastValueHidden => "last_value_hidden"@,
            OverridePriceAxisLastValueMode::LastValueAndPreviousClose => "last_value_and_previous_close"@,
        }
    }

    pub open spec fn spec_tv_value(self) -> i32 {
        match self {
            OverridePriceAxisLastValueMode::LastValue => 0,
            OverridePriceAxisLastValueMode::LastValueHidden => 1,
            OverridePriceAxisLastValueMode::LastValueAndPreviousClose => 2,
        }
    }

    pub open spec fn spec_all() -> Seq<OverridePriceAxisLastValueMode> {
        seq![OverridePriceAxisLastValueMode::LastValue, OverridePriceAxisLastValueMode::LastValueHidden, OverridePriceAxisLastValueMode::LastValueAndPreviousClose]
    }

    pub fn all() -> (r: &'static [OverridePriceAxisLastValueMode])
        ensures
            r@ == Self::spec_all(),
            forall|x: OverridePriceAxisLastValueMode| #[trigger] r@.contains(x),
            r@.no_duplicates(),
    {
        proof {
            let s = Self::spec_all();
            assert forall|x: OverridePriceAxisLastValueMode| #[trigger] s.contains(x) by {
                match x {
                    OverridePriceAxisLastValueMode::LastValue => assert(s[0] == x),
                    OverridePriceAxisLastValueMode::LastValueHidden => assert(s[1] == x),
                    OverridePriceAxisLastValueMode::LastValueAndPreviousClose => assert(s[2] == x),
                }
            }
        }
        &[
            OverridePriceAxisLastValueMode::LastValue,
            OverridePriceAxisLastValueMode::LastValueHidden,
            OverridePriceAxisLastValueMode::LastValueAndPreviousClose,
        ]
    }

    pub fn name(&self) -> (r: &'static str)
        ensures
            r@ == self.spec_name(),
    {
        match self {
            OverridePriceAxisLastValueMode::LastValue => "last_value",
            OverridePriceAxisLastValueMode::LastValueHidden => "last_value_hidden",
            OverridePriceAxisLastValueMode::LastValueAndPreviousClose => "last_value_and_previous_close",
        }
    }

    pub fn tv_value(&self) -> (r: i32)
        ensures
            r == self.spec_tv_value(),
    {
        match self {
            OverridePriceAxisLastValueMode::LastValue => 0,
            OverridePriceAxisLastValueMode::LastValueHidden => 1,
            OverridePriceAxisLastValueMode::LastValueAndPreviousClose => 2,
        }
    }
}

impl Default for OverridePriceAxisLastValueMode {
    fn default() -> (r: Self)
        ensures
            r == OverridePriceAxisLastValueMode::LastValue,
    {
        OverridePriceAxisLastValueMode::LastValue
    }
}

/// Every resolution's wire name parses back to that same resolution.
pub proof fn resolution_name_round_trip(r: Resolution)
    ensures
        Resolution::spec_parse(r.spec_name()) == Some(r),
{
    reveal_strlit("1");
    assert("1"@.len() == 1 && "1"@[0] == '1');
    reveal_strlit("3");
    assert("3"@.len() == 1 && "3"@[0] == '3');
    reveal_strlit("5");
    assert("5"@.len() == 1 && "5"@[0] == '5');
    reveal_strlit("15");
    assert("15"@.len() == 2 && "15"@[0] == '1' && "15"@[1] == '5');
    reveal_strlit("30");
    assert("30"@.len() == 2 && "30"@[0] == '3' && "30"@[1] == '0');
    reveal_strlit("60");
    assert("60"@.len() == 2 && "60"@[0] == '6' && "60"@[1] == '0');
    reveal_strlit("120");
    assert("120"@.len() == 3 && "120"@[0] == '1' && "120"@[1] == '2' && "120"@[2] == '0');
    reveal_strlit("240");
    assert("240"@.len() == 3 && "240"@[0] == '2' && "240"@[1] == '4' && "240"@[2] == '0');
    reveal_strlit("1D");
    assert("1D"@.len() == 2 && "1D"@[0] == '1' && "1D"@[1] == 'D');
    reveal_strlit("D");
    assert("D"@.len() == 1 && "D"@[0] == 'D');
    reveal_strlit("1W");
    assert("1W"@.len() == 2 && "1W"@[0] == '1' && "1W"@[1] == 'W');
    reveal_strlit("W");
    assert("W"@.len() == 1 && "W"@[0] == 'W');
    reveal_strlit("1M");
    assert("1M"@.len() == 2 && "1M"@[0] == '1' && "1M"@[1] == 'M');
    reveal_strlit("M");
    assert("M"@.len() == 1 && "M"@[0] == 'M');
}

/// A resolution lasts sixty times as many seconds as it lasts minutes.
pub proof fn resolution_seconds_match_minutes(r: Resolution)
    ensures
        r.spec_seconds() as int == 60 * r.spec_minutes() as int,
{
}

} // verus!

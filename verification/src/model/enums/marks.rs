//! Mark-related enums
//!
//! Types for controlling chart marks (annotations on time axis and bars).
use vstd::prelude::*;

verus! {

/// Mode for clearing marks from the chart
#[derive(Debug, Clone, Copy, PartialEq, Eq, Hash, Structural)]
pub enum ClearMarksMode {
    /// Clear all marks (bar marks + timescale marks)
    All,
    /// Clear only bar marks (markers on candles/bars)
    BarMarks,
    /// Clear only timescale marks (markers on the time axis)
    TimescaleMarks,
}

impl ClearMarksMode {
    pub open spec fn spec_name(self) -> Seq<char> {
        match self {
            ClearMarksMode::All => "all"@,
            ClearMarksMode::BarMarks => "bar_marks"@,
            ClearMarksMode::TimescaleMarks => "timescale_marks"@,
        }
    }

    pub open spec fn spec_display_name(self) -> Seq<char> {
        match self {
            ClearMarksMode::All => "All Marks"@,
            ClearMarksMode::BarMarks => "Bar Marks"@,
            ClearMarksMode::TimescaleMarks => "Timescale Marks"@,
        }
    }

    pub open spec fn spec_all() -> Seq<ClearMarksMode> {
        seq![ClearMarksMode::All, ClearMarksMode::BarMarks, ClearMarksMode::TimescaleMarks]
    }

    pub fn all() -> (r: &'static [ClearMarksMode])
        ensures
            r@ == Self::spec_all(),
            forall|x: ClearMarksMode| #[trigger] r@.contains(x),
            r@.no_duplicates(),
    {
        proof {
            let s = Self::spec_all();
            assert forall|x: ClearMarksMode| #[trigger] s.contains(x) by {
                match x {
                    ClearMarksMode::All => assert(s[0] == x),
                    ClearMarksMode::BarMarks => assert(s[1] == x),
                    ClearMarksMode::TimescaleMarks => assert(s[2] == x),
                }
            }
        }
        &[
            ClearMarksMode::All,
            ClearMarksMode::BarMarks,
            ClearMarksMode::TimescaleMarks,
        ]
    }

    pub fn name(&self) -> (r: &'static str)
        ensures
            r@ == self.spec_name(),
    {
        match self {
            ClearMarksMode::All => "all",
            ClearMarksMode::BarMarks => "bar_marks",
            ClearMarksMode::TimescaleMarks => "timescale_marks",
        }
    }

    pub fn display_name(&self) -> (r: &'static str)
        ensures
            r@ == self.spec_display_name(),
    {
        match self {
            ClearMarksMode::All => "All Marks",
            ClearMarksMode::BarMarks => "Bar Marks",
            ClearMarksMode::TimescaleMarks => "Timescale Marks",
        }
    }

    /// Text shown when this value is displayed.
    pub fn to_string(&self) -> (r: String)
        ensures
            r@ == self.spec_display_name(),
    {
        self.display_name().to_owned()
    }
}

impl Default for ClearMarksMode {
    fn default() -> (r: Self)
        ensures
            r == ClearMarksMode::All,
    {
        ClearMarksMode::All
    }
}

/// Mark Location - Position for mark placement
///
/// Discriminant values:
/// AboveBar=0, BelowBar=1, Top=2, Bottom=3, Right=4, AbsoluteBar=5
#[derive(Debug, Clone, Copy, PartialEq, Eq, Hash, Structural)]
pub enum MarkLocation {
    /// Above the bar
    AboveBar,
    /// Below the bar
    BelowBar,
    /// Top of the chart area
    Top,
    /// Bottom of the chart area
    Bottom,
    /// Right side of the chart
    Right,
    /// Absolute position on the bar
    AbsoluteBar,
}

impl MarkLocation {
    pub open spec fn spec_name(self) -> Seq<char> {
        match self {
            MarkLocation::AboveBar => "AboveBar"@,
            MarkLocation::BelowBar => "BelowBar"@,
            MarkLocation::Top => "Top"@,
            MarkLocation::Bottom => "Bottom"@,
            MarkLocation::Right => "Right"@,
            MarkLocation::AbsoluteBar => "AbsoluteBar"@,
        }
    }

    pub open spec fn spec_display_name(self) -> Seq<char> {
        match self {
            MarkLocation::AboveBar => "Above Bar"@,
            MarkLocation::BelowBar => "Below Bar"@,
            MarkLocation::Top => "Top"@,
            MarkLocation::Bottom => "Bottom"@,
            MarkLocation::Right => "Right"@,
            MarkLocation::AbsoluteBar => "Absolute Bar"@,
        }
    }

    pub open spec fn spec_all() -> Seq<MarkLocation> {
        seq![MarkLocation::AboveBar, MarkLocation::BelowBar, MarkLocation::Top, MarkLocation::Bottom, MarkLocation::Right, MarkLocation::AbsoluteBar]
    }

    pub fn all() -> (r: &'static [MarkLocation])
        ensures
            r@ == Self::spec_all(),
            forall|x: MarkLocation| #[trigger] r@.contains(x),
            r@.no_duplicates(),
    {
        proof {
            let s = Self::spec_all();
            assert forall|x: MarkLocation| #[trigger] s.contains(x) by {
                match x {
                    MarkLocation::AboveBar => assert(s[0] == x),
                    MarkLocation::BelowBar => assert(s[1] == x),
                    MarkLocation::Top => assert(s[2] == x),
                    MarkLocation::Bottom => assert(s[3] == x),
                    MarkLocation::Right => assert(s[4] == x),
                    MarkLocation::AbsoluteBar => assert(s[5] == x),
                }
            }
        }
        &[
            MarkLocation::AboveBar,
            MarkLocation::BelowBar,
            MarkLocation::Top,
            MarkLocation::Bottom,
            MarkLocation::Right,
            MarkLocation::AbsoluteBar,
        ]
    }

    pub fn name(&self) -> (r: &'static str)
        ensures
            r@ == self.spec_name(),
    {
        match self {
            MarkLocation::AboveBar => "AboveBar",
            MarkLocation::BelowBar => "BelowBar",
            MarkLocation::Top => "Top",
            MarkLocation::Bottom => "Bottom",
            MarkLocation::Right => "Right",
            MarkLocation::AbsoluteBar => "AbsoluteBar",
        }
    }

    pub fn display_name(&self) -> (r: &'static str)
        ensures
            r@ == self.spec_display_name(),
    {
        match self {
            MarkLocation::AboveBar => "Above Bar",
            MarkLocation::BelowBar => "Below Bar",
            MarkLocation::Top => "Top",
            MarkLocation::Bottom => "Bottom",
            MarkLocation::Right => "Right",
            MarkLocation::AbsoluteBar => "Absolute Bar",
        }
    }

    /// Text shown when this value is displayed.
    pub fn to_string(&self) -> (r: String)
        ensures
            r@ == self.spec_display_name(),
    {
        self.display_name().to_owned()
    }
}

impl Default for MarkLocation {
    fn default() -> (r: Self)
        ensures
            r == MarkLocation::AboveBar,
    {
        MarkLocation::AboveBar
    }
}

} // verus!

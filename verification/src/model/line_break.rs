//! Three-Line Break chart configuration and signals.
//!
//! A Line Break chart (also called "N-Line Break") draws a new line only
//! when the closing price exceeds the high or low of the previous *N*
//! lines. This filters out minor noise while preserving significant
//! reversals.
//!
//! [`detect_signal`] classifies the relationship between the directions of
//! the last two lines as a continuation or reversal.
use vstd::prelude::*;

verus! {

/// Configuration for the Line Break chart transformation.
///
/// The `line_cnt` parameter (typically 3) controls how many prior lines
/// must be exceeded for a reversal to register.
#[derive(Debug, Clone)]
pub struct LineBreakConfig {
    /// Number of lines to look back for reversal
    pub line_cnt: usize,
}

impl Default for LineBreakConfig {
    fn default() -> (r: Self)
        ensures
            r.line_cnt == 3,
    {
        LineBreakConfig { line_cnt: 3 }
    }
}

impl LineBreakConfig {
    /// Create a Line Break config with the given look-back count.
    pub fn new(line_cnt: usize) -> (r: Self)
        ensures
            r.line_cnt == line_cnt,
    {
        LineBreakConfig { line_cnt }
    }
}

/// Direction of a single line in a Line Break chart.
#[derive(Debug, Clone, Copy, PartialEq, Eq, Hash, Structural)]
pub enum LineDirection {
    Up,
    Down,
}

/// Signal generated from the last two lines of a Line Break chart.
#[derive(Debug, Clone, Copy, PartialEq, Eq, Hash, Structural)]
pub enum LineBreakSignal {
    /// New bullish line (potential buy)
    Bullish,
    /// New bearish line (potential sell)
    Bearish,
    /// Reversal from down to up
    BullishReversal,
    /// Reversal from up to down
    BearishReversal,
    /// No signal
    NoSignal,
}

/// The signal for a line of direction `current` that follows one of direction `prev`.
pub open spec fn spec_signal(prev: LineDirection, current: LineDirection) -> LineBreakSignal {
    match (prev, current) {
        (LineDirection::Down, LineDirection::Up) => LineBreakSignal::BullishReversal,
        (LineDirection::Up, LineDirection::Down) => LineBreakSignal::BearishReversal,
        (LineDirection::Up, LineDirection::Up) => LineBreakSignal::Bullish,
        (LineDirection::Down, LineDirection::Down) => LineBreakSignal::Bearish,
    }
}

/// Classify the signal produced by the last two lines, given the directions of
/// all lines in order.
///
/// Returns [`LineBreakSignal::NoSignal`] if fewer than two lines exist.
pub fn detect_signal(directions: &[LineDirection]) -> (r: LineBreakSignal)
    ensures
        r == (if directions@.len() < 2 {
            LineBreakSignal::NoSignal
        } else {
            spec_signal(directions@[directions@.len() - 2], directions@[directions@.len() - 1])
        }),
{
    let n = directions.len();
    if n < 2 {
        return LineBreakSignal::NoSignal;
    }
    let prev = directions[n - 2];
    let current = directions[n - 1];
    match (prev, current) {
        (LineDirection::Down, LineDirection::Up) => LineBreakSignal::BullishReversal,
        (LineDirection::Up, LineDirection::Down) => LineBreakSignal::BearishReversal,
        (LineDirection::Up, LineDirection::Up) => LineBreakSignal::Bullish,
        (LineDirection::Down, LineDirection::Down) => LineBreakSignal::Bearish,
    }
}

/// A reversal signal is given exactly when the last two lines point in
/// different directions.
pub proof fn reversal_iff_direction_changes(prev: LineDirection, current: LineDirection)
    ensures
        (spec_signal(prev, current) == LineBreakSignal::BullishReversal
            || spec_signal(prev, current) == LineBreakSignal::BearishReversal) <==> prev != current,
        spec_signal(prev, current) != LineBreakSignal::NoSignal,
{
}

} // verus!

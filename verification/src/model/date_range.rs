//! Preset date-range selectors for the chart toolbar.
//!
//! Mirrors the "1D / 5D / 1M / 3M / 6M / YTD / 1Y / 5Y / All" buttons
//! found on most financial charting platforms.
use crate::model::session::{
    now_millis, ordinal_of, utc_ordinal, utc_representable, utc_year, utc_year_start, year_of, year_start_of,
};
use vstd::prelude::*;

verus! {

/// Preset date range for quick navigation.
///
/// Each variant describes a lookback window from the current time.
/// The default preset is [`Month1`](DateRange::Month1).
///
/// Use [`start_timestamp`](DateRange::start_timestamp) to convert a preset into
/// an absolute `DateTime`, or [`estimated_bars`](DateRange::estimated_bars) to
/// estimate how many bars to fetch for a given timeframe.
#[derive(Debug, Clone, Copy, PartialEq, Eq, Hash, Structural)]
pub enum DateRange {
    /// 1 Day
    Day1,
    /// 5 Days
    Day5,
    /// 1 Month
    Month1,
    /// 3 Months
    Month3,
    /// 6 Months
    Month6,
    /// Year to Date (from Jan 1 of current year)
    YTD,
    /// 1 Year
    Year1,
    /// 5 Years
    Year5,
    /// All available data
    All,
}

impl DateRange {
    pub open spec fn spec_label(self) -> Seq<char> {
        match self {
            DateRange::Day1 => "1D"@,
            DateRange::Day5 => "5D"@,
            DateRange::Month1 => "1M"@,
            DateRange::Month3 => "3M"@,
            DateRange::Month6 => "6M"@,
            DateRange::YTD => "YTD"@,
            DateRange::Year1 => "1Y"@,
            DateRange::Year5 => "5Y"@,
            DateRange::All => "All"@,
        }
    }

    pub open spec fn spec_tooltip(self) -> Seq<char> {
        match self {
            DateRange::Day1 => "1 day in 1 minute intervals"@,
            DateRange::Day5 => "5 days in 5 minutes intervals"@,
            DateRange::Month1 => "1 month in 30 minutes intervals"@,
            DateRange::Month3 => "3 months in 1 hour intervals"@,
            DateRange::Month6 => "6 months in 2 hours intervals"@,
            DateRange::YTD => "Year to day in 1 day intervals"@,
            DateRange::Year1 => "1 year in 1 day intervals"@,
            DateRange::Year5 => "5 years in 1 week intervals"@,
            DateRange::All => "All data in 1 month intervals"@,
        }
    }

    pub open spec fn spec_default_presets() -> Seq<DateRange> {
        seq![DateRange::Day1, DateRange::Day5, DateRange::Month1, DateRange::Month3, DateRange::Month6, DateRange::YTD, DateRange::Year1, DateRange::Year5, DateRange::All]
    }

    /// Get all standard ranges in order
    pub fn default_presets() -> (r: Vec<DateRange>)
        ensures
            r@ == Self::spec_default_presets(),
            forall|x: DateRange| #[trigger] r@.contains(x),
            r@.no_duplicates(),
    {
        proof {
            let s = Self::spec_default_presets();
            assert forall|x: DateRange| #[trigger] s.contains(x) by {
                match x {
                    DateRange::Day1 => assert(s[0] == x),
                    DateRange::Day5 => assert(s[1] == x),
                    DateRange::Month1 => assert(s[2] == x),
                    DateRange::Month3 => assert(s[3] == x),
                    DateRange::Month6 => assert(s[4] == x),
                    DateRange::YTD => assert(s[5] == x),
                    DateRange::Year1 => assert(s[6] == x),
                    DateRange::Year5 => assert(s[7] == x),
                    DateRange::All => assert(s[8] == x),
                }
            }
        }
        vec![
            DateRange::Day1,
            DateRange::Day5,
            DateRange::Month1,
            DateRange::Month3,
            DateRange::Month6,
            DateRange::YTD,
            DateRange::Year1,
            DateRange::Year5,
            DateRange::All,
        ]
    }

    /// Get display label for the range
    pub fn label(&self) -> (r: &'static str)
        ensures
            r@ == self.spec_label(),
    {
        match self {
            DateRange::Day1 => "1D",
            DateRange::Day5 => "5D",
            DateRange::Month1 => "1M",
            DateRange::Month3 => "3M",
            DateRange::Month6 => "6M",
            DateRange::YTD => "YTD",
            DateRange::Year1 => "1Y",
            DateRange::Year5 => "5Y",
            DateRange::All => "All",
        }
    }

    /// Get tooltip desc for the range
    pub fn tooltip(&self) -> (r: &'static str)
        ensures
            r@ == self.spec_tooltip(),
    {
        match self {
            DateRange::Day1 => "1 day in 1 minute intervals",
            DateRange::Day5 => "5 days in 5 minutes intervals",
            DateRange::Month1 => "1 month in 30 minutes intervals",
            DateRange::Month3 => "3 months in 1 hour intervals",
            DateRange::Month6 => "6 months in 2 hours intervals",
            DateRange::YTD => "Year to day in 1 day intervals",
            DateRange::Year1 => "1 year in 1 day intervals",
            DateRange::Year5 => "5 years in 1 week intervals",
            DateRange::All => "All data in 1 month intervals",
        }
    }

    /// Text shown when this value is displayed.
    pub fn to_string(&self) -> (r: String)
        ensures
            r@ == self.spec_label(),
    {
        self.label().to_owned()
    }

    /// Length of the lookback window in seconds, given the day of the year
    /// (1 for January 1st) that year-to-date counts up to.
    pub open spec fn spec_duration_seconds(self, day_of_year: nat) -> nat {
        match self {
            DateRange::Day1 => 86400,
            DateRange::Day5 => 432000,
            DateRange::Month1 => 2592000,
            DateRange::Month3 => 7776000,
            DateRange::Month6 => 15552000,
            DateRange::YTD => day_of_year * 86400,
            DateRange::Year1 => 31536000,
            DateRange::Year5 => 157680000,
            DateRange::All => 315360000,
        }
    }

    /// Approximate number of bars needed for this range at the given bar length,
    /// with year-to-date counted up to the given day of the year.
    pub open spec fn spec_estimated_bars(self, bar_duration_seconds: nat, day_of_year: nat) -> nat {
        let bar = if bar_duration_seconds >= 1 { bar_duration_seconds } else { 1 };
        self.spec_duration_seconds(day_of_year) / bar
    }

    /// Calculate approximate number of bars needed for this range at a given
    /// timeframe, counting year-to-date up to today. Only year-to-date reads
    /// the clock, and gives `None` when it cannot be read (before 1970, or
    /// beyond chrono's range).
    pub fn estimated_bars(&self, bar_duration_seconds: u64) -> (r: Option<usize>)
        ensures
            *self != DateRange::YTD ==> r == Some(
                self.spec_estimated_bars(bar_duration_seconds as nat, 1) as usize,
            ),
            *self == DateRange::YTD && r is Some ==> exists|now: i64|
                utc_representable(now) && r == Some(
                    self.spec_estimated_bars(bar_duration_seconds as nat, utc_ordinal(now) as nat)
                        as usize,
                ),
    {
        if *self != DateRange::YTD {
            return Some(self.estimated_bars_on_day(bar_duration_seconds, 1));
        }
        let now = now_millis()?;
        let day = ordinal_of(now);
        Some(self.estimated_bars_on_day(bar_duration_seconds, day))
    }

    /// Approximate number of bars needed for this range at a given timeframe,
    /// with year-to-date counted up to `day_of_year` (1 for January 1st).
    pub fn estimated_bars_on_day(&self, bar_duration_seconds: u64, day_of_year: u32) -> (r: usize)
        ensures
            r == self.spec_estimated_bars(bar_duration_seconds as nat, day_of_year as nat) as usize,
    {
        let duration_seconds: u64 = match self {
            DateRange::Day1 => 86400,
            DateRange::Day5 => 432000,
            DateRange::Month1 => 2592000,
            DateRange::Month3 => 7776000,
            DateRange::Month6 => 15552000,
            DateRange::YTD => day_of_year as u64 * 86400,
            DateRange::Year1 => 31536000,
            DateRange::Year5 => 157680000,
            DateRange::All => 315360000,
        };
        let bar = if bar_duration_seconds >= 1 { bar_duration_seconds } else { 1 };
        let bars = duration_seconds / bar;
        bars as usize
    }
}

impl DateRange {
    /// Length of the lookback window in days, for the presets that count back
    /// a fixed number of days from now.
    pub open spec fn spec_lookback_days(self) -> Option<int> {
        match self {
            DateRange::Day1 => Some(1),
            DateRange::Day5 => Some(5),
            DateRange::Month1 => Some(30),
            DateRange::Month3 => Some(90),
            DateRange::Month6 => Some(180),
            DateRange::Year1 => Some(365),
            DateRange::Year5 => Some(1825),
            DateRange::YTD | DateRange::All => None,
        }
    }

    /// Start instant (UTC milliseconds) of this range when it is `now`: a fixed
    /// number of days back, midnight on January 1st of the current year for
    /// year-to-date, and none for all data.
    pub open spec fn spec_start_at(self, now: i64) -> Option<i64> {
        match self.spec_lookback_days() {
            Some(days) => Some((now - days * 86_400_000) as i64),
            None => if self == DateRange::YTD {
                utc_year_start(utc_year(now))
            } else {
                None
            },
        }
    }

    /// Calculate the start instant (UTC milliseconds) of this range when the
    /// clock reads `now`. Returns `None` for [`DateRange::All`] (meaning "from
    /// earliest available").
    pub fn start_timestamp_at(&self, now: i64) -> (r: Option<i64>)
        requires
            utc_representable(now),
        ensures
            r == self.spec_start_at(now),
    {
        let days: i64 = match self {
            DateRange::Day1 => 1,
            DateRange::Day5 => 5,
            DateRange::Month1 => 30,
            DateRange::Month3 => 90,
            DateRange::Month6 => 180,
            DateRange::Year1 => 365,
            DateRange::Year5 => 365 * 5,
            DateRange::YTD => {
                return year_start_of(year_of(now));
            },
            DateRange::All => {
                return None;
            },
        };
        Some(now - days * 86_400_000)
    }

    /// Calculate the start instant (UTC milliseconds) of this range from the
    /// current time. Returns `None` for [`DateRange::All`] (meaning "from
    /// earliest available"), and also when the clock cannot be read (before
    /// 1970, or beyond chrono's range).
    pub fn start_timestamp(&self) -> (r: Option<i64>)
        ensures
            r is Some ==> exists|now: i64| utc_representable(now) && r == self.spec_start_at(now),
    {
        let now = now_millis()?;
        self.start_timestamp_at(now)
    }

    /// Get the date range as (start, end) instants, reading the clock once:
    /// `(None, now)` for [`DateRange::All`] (meaning earliest to now). `None`
    /// when the clock cannot be read (before 1970, or beyond chrono's range).
    pub fn to_timestamps(&self) -> (r: Option<(Option<i64>, i64)>)
        ensures
            r matches Some((start, end)) ==> utc_representable(end) && start == self.spec_start_at(end),
    {
        let now = now_millis()?;
        Some((self.start_timestamp_at(now), now))
    }
}

/// Each preset that looks back a fixed span starts exactly that span before
/// now: the window from its start up to now is the span that the preset's
/// bar estimate counts (one day, five days, 30, 90 and 180 days, 365 and
/// 5 × 365 days). Year-to-date and all data have no fixed span.
pub proof fn lookback_matches_duration(r: DateRange, now: i64)
    requires
        utc_representable(now),
        r != DateRange::YTD,
        r != DateRange::All,
    ensures
        r.spec_start_at(now) matches Some(start) && now - start == r.spec_duration_seconds(1) * 1000,
{
}

/// The presets' windows stand in the ratios that their labels name: five days
/// reach five times as far back as one day, three and six months three and six
/// times as far as one month, and five years five times as far as one year.
pub proof fn lookbacks_scale_with_labels(now: i64)
    requires
        utc_representable(now),
    ensures
        DateRange::Day5.spec_start_at(now) matches Some(a) && DateRange::Day1.spec_start_at(now) matches Some(b)
            && now - a == 5 * (now - b),
        DateRange::Month3.spec_start_at(now) matches Some(a) && DateRange::Month1.spec_start_at(now) matches Some(b)
            && now - a == 3 * (now - b),
        DateRange::Month6.spec_start_at(now) matches Some(a) && DateRange::Month1.spec_start_at(now) matches Some(b)
            && now - a == 6 * (now - b),
        DateRange::Year5.spec_start_at(now) matches Some(a) && DateRange::Year1.spec_start_at(now) matches Some(b)
            && now - a == 5 * (now - b),
{
}

impl Default for DateRange {
    fn default() -> (r: Self)
        ensures
            r == DateRange::Month1,
    {
        DateRange::Month1
    }
}

} // verus!

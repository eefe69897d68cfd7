//! Timeframe (bar aggregation interval) for financial charts.
//!
//! A [`Timeframe`] specifies how long each bar/candle represents.  The library
//! ships with standard presets from 100 ms up to 1 month, and a [`Custom`](Timeframe::Custom)
//! variant for arbitrary intervals.
//!
//! # Parsing
//!
//! Timeframes can be parsed from human-readable strings via [`FromStr`]:
//! `"15min"` gives [`Timeframe::Min15`] and `"45s"` gives `Timeframe::Custom(45)`.
use crate::text::{
    all_digits, ascii_lower, chars_eq_str, chars_of, decimal, is_digit, lemma_decimal, lemma_parse_decimal,
    fold_case, folded, parse_u64, parse_u64_range, push_str, str_eq, string_from_chars, trim,
    trim_bounds, u64_to_decimal,
};
use crate::model::enums::chart::Resolution;
use std::borrow::Cow;
use std::str::FromStr;
use vstd::prelude::*;

verus! {

/// chrono's signed span of time (`chrono::Duration`), carried as an opaque value.
#[verifier::external_type_specification]
#[verifier::external_body]
pub struct ExTimeDelta(chrono::TimeDelta);

/// Names the span that `chrono::TimeDelta::milliseconds` makes of `ms`
/// milliseconds.
pub uninterp spec fn span_of_millis(ms: i64) -> chrono::TimeDelta;

/// Calls `chrono::TimeDelta::milliseconds`, which makes the span of `ms`
/// milliseconds (a function of `ms` alone) and panics below `-i64::MAX`.
#[verifier::external_body]
fn millis_delta(ms: i64) -> (r: chrono::TimeDelta)
    requires
        ms >= -i64::MAX,
    ensures
        r == span_of_millis(ms),
{
    chrono::TimeDelta::milliseconds(ms)
}


/// Timeframe for bar aggregation.
///
/// Each variant represents a fixed time interval over which OHLCV data is aggregated
/// into a single bar. The default timeframe is [`Min1`](Timeframe::Min1).
///
/// | Tier         | Variants                                               |
/// |-------------|-------------------------------------------------------|
/// | Millisecond | `Ms100`, `Ms250`, `Ms500`                              |
/// | Second      | `Sec1` .. `Sec30`                                      |
/// | Minute      | `Min1`, `Min5`, `Min15`, `Min30`                       |
/// | Hourly      | `Hour1`, `Hour4`                                       |
/// | Daily+      | `Day1`, `Week1`, `Month1`                              |
/// | Custom      | `Custom(seconds)` -- any user-defined interval          |
#[derive(Debug, Clone, Copy, PartialEq, Eq, Hash, Structural)]
pub enum Timeframe {
    /// 100-millisecond bars (HFT).
    Ms100,
    /// 250-millisecond bars (HFT).
    Ms250,
    /// 500-millisecond bars (HFT).
    Ms500,
    /// 1-second bars.
    Sec1,
    /// 2-second bars.
    Sec2,
    /// 5-second bars.
    Sec5,
    /// 10-second bars.
    Sec10,
    /// 30-second bars.
    Sec30,
    /// 1-minute bars (default).
    Min1,
    /// 5-minute bars.
    Min5,
    /// 15-minute bars.
    Min15,
    /// 30-minute bars.
    Min30,
    /// 1-hour bars.
    Hour1,
    /// 4-hour bars.
    Hour4,
    /// Daily bars.
    Day1,
    /// Weekly bars.
    Week1,
    /// Monthly bars (approximated as 30 days for duration calculations).
    Month1,
    /// Custom timeframe defined in seconds.
    /// Allows user-defined intervals (e.g., 45s, 3min, 2h).
    Custom(u64),
}

/// Label of a custom timeframe: the largest clean unit of days, hours, minutes
/// or seconds.
pub open spec fn spec_custom_label(seconds: nat) -> Seq<char> {
    if seconds == 0 {
        "0s"@
    } else if seconds >= 86400 && seconds % 86400 == 0 {
        decimal(seconds / 86400) + "D"@
    } else if seconds >= 3600 && seconds % 3600 == 0 {
        decimal(seconds / 3600) + "h"@
    } else if seconds >= 60 && seconds % 60 == 0 {
        decimal(seconds / 60) + "min"@
    } else {
        decimal(seconds) + "s"@
    }
}

/// Suffixes accepted after the number of a custom timeframe, with the number of
/// seconds per unit, in the order in which they are tried.
pub open spec fn spec_suffixes() -> Seq<(Seq<char>, nat)> {
    seq![
        ("month"@, 2592000nat),
        ("hour"@, 3600nat),
        ("min"@, 60nat),
        ("sec"@, 1nat),
        ("day"@, 86400nat),
        ("s"@, 1nat),
        ("h"@, 3600nat),
        ("d"@, 86400nat),
        ("w"@, 604800nat),
    ]
}

pub open spec fn ends_with(s: Seq<char>, suffix: Seq<char>) -> bool {
    suffix.len() <= s.len() && s.subrange(s.len() - suffix.len(), s.len() as int) == suffix
}

/// Seconds denoted by a lower-cased custom timeframe, trying the suffixes from
/// index `k` on. The first suffix that ends the text decides: its number must
/// parse, or there is no value. With no suffix, a bare number counts minutes.
pub open spec fn spec_custom_seconds_from(l: Seq<char>, k: nat) -> Option<nat>
    decreases 9 - k,
{
    if k >= 9 {
        match parse_u64(trim(l)) {
            Some(n) => Some(n * 60),
            None => None,
        }
    } else {
        let suffix = spec_suffixes()[k as int].0;
        let mult = spec_suffixes()[k as int].1;
        if ends_with(l, suffix) {
            match parse_u64(trim(l.subrange(0, l.len() - suffix.len()))) {
                Some(n) => Some(n * mult),
                None => None,
            }
        } else {
            spec_custom_seconds_from(l, k + 1)
        }
    }
}

pub open spec fn spec_custom_seconds(l: Seq<char>) -> Option<nat> {
    spec_custom_seconds_from(l, 0)
}

/// Error text for an unparsable timeframe.
pub open spec fn spec_invalid_message(s: Seq<char>) -> Seq<char> {
    "Invalid timeframe '"@ + s
        + "'. Valid formats: 100ms, 250ms, 500ms, 1s-30s, 1min-30min, 1h, 4h, 1D, 1W, 1M, or custom (e.g. 45s, 3min, 2h)"@
}

impl Timeframe {
    /// Label of each preset.
    pub open spec fn spec_preset_label(self) -> Seq<char> {
        match self {
            Timeframe::Ms100 => "100ms"@,
            Timeframe::Ms250 => "250ms"@,
            Timeframe::Ms500 => "500ms"@,
            Timeframe::Sec1 => "1s"@,
            Timeframe::Sec2 => "2s"@,
            Timeframe::Sec5 => "5s"@,
            Timeframe::Sec10 => "10s"@,
            Timeframe::Sec30 => "30s"@,
            Timeframe::Min1 => "1min"@,
            Timeframe::Min5 => "5min"@,
            Timeframe::Min15 => "15min"@,
            Timeframe::Min30 => "30min"@,
            Timeframe::Hour1 => "1h"@,
            Timeframe::Hour4 => "4h"@,
            Timeframe::Day1 => "1D"@,
            Timeframe::Week1 => "1W"@,
            Timeframe::Month1 => "1M"@,
            Timeframe::Custom(_) => Seq::empty(),
        }
    }

    /// Canonical label of a timeframe.
    pub open spec fn spec_label(self) -> Seq<char> {
        match self {
            Timeframe::Custom(seconds) => spec_custom_label(seconds as nat),
            _ => self.spec_preset_label(),
        }
    }

    /// Duration in milliseconds. A custom length is read as a signed 64-bit number
    /// of seconds before it is scaled.
    pub open spec fn spec_duration_ms(self) -> int {
        match self {
            Timeframe::Ms100 => 100,
            Timeframe::Ms250 => 250,
            Timeframe::Ms500 => 500,
            Timeframe::Sec1 => 1000,
            Timeframe::Sec2 => 2000,
            Timeframe::Sec5 => 5000,
            Timeframe::Sec10 => 10000,
            Timeframe::Sec30 => 30000,
            Timeframe::Min1 => 60_000,
            Timeframe::Min5 => 300_000,
            Timeframe::Min15 => 900_000,
            Timeframe::Min30 => 1_800_000,
            Timeframe::Hour1 => 3_600_000,
            Timeframe::Hour4 => 14_400_000,
            Timeframe::Day1 => 86_400_000,
            Timeframe::Week1 => 604_800_000,
            Timeframe::Month1 => 2_592_000_000,
            Timeframe::Custom(seconds) => (seconds as i64) as int * 1000,
        }
    }

    /// Whether the duration in milliseconds fits in an `i64`.
    pub open spec fn duration_fits(self) -> bool {
        i64::MIN <= self.spec_duration_ms() <= i64::MAX
    }

    pub open spec fn spec_total_seconds(self) -> int {
        if self.spec_duration_ms() >= 0 {
            self.spec_duration_ms() / 1000
        } else {
            0
        }
    }

    pub open spec fn spec_all() -> Seq<Timeframe> {
        seq![
            Timeframe::Ms100, Timeframe::Ms250, Timeframe::Ms500, Timeframe::Sec1,
            Timeframe::Sec2, Timeframe::Sec5, Timeframe::Sec10, Timeframe::Sec30,
            Timeframe::Min1, Timeframe::Min5, Timeframe::Min15, Timeframe::Min30,
            Timeframe::Hour1, Timeframe::Hour4, Timeframe::Day1, Timeframe::Week1,
            Timeframe::Month1,
        ]
    }

    /// The preset denoted by a lower-cased label, if any.
    pub open spec fn spec_preset(l: Seq<char>) -> Option<Timeframe> {
        if l == "100ms"@ {
            Some(Timeframe::Ms100)
        } else if l == "250ms"@ {
            Some(Timeframe::Ms250)
        } else if l == "500ms"@ {
            Some(Timeframe::Ms500)
        } else if l == "1s"@ || l == "1sec"@ {
            Some(Timeframe::Sec1)
        } else if l == "2s"@ || l == "2sec"@ {
            Some(Timeframe::Sec2)
        } else if l == "5s"@ || l == "5sec"@ {
            Some(Timeframe::Sec5)
        } else if l == "10s"@ || l == "10sec"@ {
            Some(Timeframe::Sec10)
        } else if l == "30s"@ || l == "30sec"@ {
            Some(Timeframe::Sec30)
        } else if l == "1min"@ {
            Some(Timeframe::Min1)
        } else if l == "5min"@ {
            Some(Timeframe::Min5)
        } else if l == "15min"@ {
            Some(Timeframe::Min15)
        } else if l == "30min"@ {
            Some(Timeframe::Min30)
        } else if l == "1h"@ || l == "1hour"@ {
            Some(Timeframe::Hour1)
        } else if l == "4h"@ || l == "4hour"@ {
            Some(Timeframe::Hour4)
        } else if l == "1d"@ || l == "1day"@ {
            Some(Timeframe::Day1)
        } else if l == "1w"@ || l == "1week"@ {
            Some(Timeframe::Week1)
        } else if l == "1m"@ || l == "1month"@ {
            Some(Timeframe::Month1)
        } else {
            None
        }
    }

    /// Result of parsing the lower-cased text `l` of the original input `s`:
    /// presets first, then a custom `<number><unit>`. A custom length of zero
    /// is refused; so is one whose number of seconds does not fit in a `u64`.
    pub open spec fn spec_parse_lower(l: Seq<char>, s: Seq<char>) -> Result<Timeframe, Seq<char>> {
        match Self::spec_preset(l) {
            Some(tf) => Ok(tf),
            None => match spec_custom_seconds(l) {
                Some(n) => if n == 0 {
                    Err("Custom timeframe must be greater than zero"@)
                } else if n <= u64::MAX {
                    Ok(Timeframe::Custom(n as u64))
                } else {
                    Err(spec_invalid_message(s))
                },
                None => Err(spec_invalid_message(s)),
            },
        }
    }

    /// The timeframe written by a resolution string, if any.
    pub open spec fn spec_from_resolution(r: Seq<char>) -> Option<Timeframe> {
        if r == "1"@ {
            Some(Timeframe::Min1)
        } else if r == "5"@ {
            Some(Timeframe::Min5)
        } else if r == "15"@ {
            Some(Timeframe::Min15)
        } else if r == "30"@ {
            Some(Timeframe::Min30)
        } else if r == "60"@ || r == "1H"@ {
            Some(Timeframe::Hour1)
        } else if r == "240"@ || r == "4H"@ {
            Some(Timeframe::Hour4)
        } else if r == "1D"@ || r == "D"@ {
            Some(Timeframe::Day1)
        } else if r == "1W"@ || r == "W"@ {
            Some(Timeframe::Week1)
        } else if r == "1M"@ || r == "M"@ {
            Some(Timeframe::Month1)
        } else {
            None
        }
    }

    /// Returns the canonical string label for this timeframe (e.g. `"1min"`, `"4h"`, `"1D"`).
    pub fn as_str(&self) -> (r: Cow<'static, str>)
        ensures
            r@ == self.spec_label(),
    {
        match self {
            Timeframe::Ms100 => Cow::Borrowed("100ms"),
            Timeframe::Ms250 => Cow::Borrowed("250ms"),
            Timeframe::Ms500 => Cow::Borrowed("500ms"),
            Timeframe::Sec1 => Cow::Borrowed("1s"),
            Timeframe::Sec2 => Cow::Borrowed("2s"),
            Timeframe::Sec5 => Cow::Borrowed("5s"),
            Timeframe::Sec10 => Cow::Borrowed("10s"),
            Timeframe::Sec30 => Cow::Borrowed("30s"),
            Timeframe::Min1 => Cow::Borrowed("1min"),
            Timeframe::Min5 => Cow::Borrowed("5min"),
            Timeframe::Min15 => Cow::Borrowed("15min"),
            Timeframe::Min30 => Cow::Borrowed("30min"),
            Timeframe::Hour1 => Cow::Borrowed("1h"),
            Timeframe::Hour4 => Cow::Borrowed("4h"),
            Timeframe::Day1 => Cow::Borrowed("1D"),
            Timeframe::Week1 => Cow::Borrowed("1W"),
            Timeframe::Month1 => Cow::Borrowed("1M"),
            Timeframe::Custom(seconds) => Cow::Owned(format_custom_seconds(*seconds)),
        }
    }

    /// The canonical label as an owned string.
    pub fn to_string(&self) -> (r: String)
        ensures
            r@ == self.spec_label(),
    {
        match self.as_str() {
            Cow::Borrowed(s) => s.to_owned(),
            Cow::Owned(s) => s,
        }
    }

    /// Returns all preset (non-custom) timeframes in ascending order.
    pub fn all() -> (r: Vec<Timeframe>)
        ensures
            r@ == Self::spec_all(),
            forall|x: Timeframe| !(x is Custom) ==> #[trigger] r@.contains(x),
            !r@.contains(Timeframe::Custom(0)) && forall|i: int|
                0 <= i < r@.len() ==> !(#[trigger] r@[i] is Custom),
            forall|i: int, j: int|
                0 <= i < j < r@.len() ==> #[trigger] r@[i].spec_duration_ms()
                    < #[trigger] r@[j].spec_duration_ms(),
    {
        proof {
            let s = Self::spec_all();
            assert forall|x: Timeframe| !(x is Custom) implies #[trigger] s.contains(x) by {
                match x {
                    Timeframe::Ms100 => assert(s[0] == x),
                    Timeframe::Ms250 => assert(s[1] == x),
                    Timeframe::Ms500 => assert(s[2] == x),
                    Timeframe::Sec1 => assert(s[3] == x),
                    Timeframe::Sec2 => assert(s[4] == x),
                    Timeframe::Sec5 => assert(s[5] == x),
                    Timeframe::Sec10 => assert(s[6] == x),
                    Timeframe::Sec30 => assert(s[7] == x),
                    Timeframe::Min1 => assert(s[8] == x),
                    Timeframe::Min5 => assert(s[9] == x),
                    Timeframe::Min15 => assert(s[10] == x),
                    Timeframe::Min30 => assert(s[11] == x),
                    Timeframe::Hour1 => assert(s[12] == x),
                    Timeframe::Hour4 => assert(s[13] == x),
                    Timeframe::Day1 => assert(s[14] == x),
                    Timeframe::Week1 => assert(s[15] == x),
                    Timeframe::Month1 => assert(s[16] == x),
                    Timeframe::Custom(_) => {},
                }
            }
        }
        vec![
            Timeframe::Ms100,
            Timeframe::Ms250,
            Timeframe::Ms500,
            Timeframe::Sec1,
            Timeframe::Sec2,
            Timeframe::Sec5,
            Timeframe::Sec10,
            Timeframe::Sec30,
            Timeframe::Min1,
            Timeframe::Min5,
            Timeframe::Min15,
            Timeframe::Min30,
            Timeframe::Hour1,
            Timeframe::Hour4,
            Timeframe::Day1,
            Timeframe::Week1,
            Timeframe::Month1,
        ]
    }

    /// Get duration in milliseconds.
    ///
    /// A custom length whose millisecond count does not fit in an `i64` is outside
    /// the domain of this function.
    pub fn duration_ms(&self) -> (r: i64)
        requires
            self.duration_fits(),
        ensures
            r == self.spec_duration_ms(),
    {
        match self {
            Timeframe::Ms100 => 100,
            Timeframe::Ms250 => 250,
            Timeframe::Ms500 => 500,
            Timeframe::Sec1 => 1000,
            Timeframe::Sec2 => 2000,
            Timeframe::Sec5 => 5000,
            Timeframe::Sec10 => 10000,
            Timeframe::Sec30 => 30000,
            Timeframe::Min1 => 60_000,
            Timeframe::Min5 => 300_000,
            Timeframe::Min15 => 900_000,
            Timeframe::Min30 => 1_800_000,
            Timeframe::Hour1 => 3_600_000,
            Timeframe::Hour4 => 14_400_000,
            Timeframe::Day1 => 86_400_000,
            Timeframe::Week1 => 604_800_000,
            Timeframe::Month1 => 2_592_000_000,
            Timeframe::Custom(seconds) => (*seconds as i64) * 1000,
        }
    }

    /// Get chrono Duration
    pub fn duration(&self) -> (r: chrono::TimeDelta)
        requires
            self.duration_fits(),
        ensures
            r == span_of_millis(self.spec_duration_ms() as i64),
    {
        millis_delta(self.duration_ms())
    }

    /// Returns true if this is a user-defined custom timeframe
    pub fn is_custom(&self) -> (r: bool)
        ensures
            r == (*self is Custom),
    {
        matches!(self, Timeframe::Custom(_))
    }

    /// Get the number of seconds for this timeframe
    pub fn total_seconds(&self) -> (r: u64)
        requires
            self.duration_fits(),
        ensures
            r == self.spec_total_seconds(),
    {
        let ms = self.duration_ms();
        if ms < 0 {
            0
        } else {
            (ms / 1000) as u64
        }
    }

    /// Convert timeframe to seconds (signed, for range calculations)
    pub fn as_seconds(self) -> (r: i64)
        requires
            self.duration_fits(),
        ensures
            r == self.spec_total_seconds(),
    {
        self.total_seconds() as i64
    }

    /// Alias for `as_seconds` for backward compatibility
    pub fn to_seconds(self) -> (r: i64)
        requires
            self.duration_fits(),
        ensures
            r == self.spec_total_seconds(),
    {
        self.as_seconds()
    }

    /// Convert a resolution string to Timeframe
    pub fn from_resolution(resolution: &str) -> (r: Option<Self>)
        ensures
            r == Self::spec_from_resolution(resolution@),
    {
        if str_eq(resolution, "1") {
            Some(Timeframe::Min1)
        } else if str_eq(resolution, "5") {
            Some(Timeframe::Min5)
        } else if str_eq(resolution, "15") {
            Some(Timeframe::Min15)
        } else if str_eq(resolution, "30") {
            Some(Timeframe::Min30)
        } else if str_eq(resolution, "60") || str_eq(resolution, "1H") {
            Some(Timeframe::Hour1)
        } else if str_eq(resolution, "240") || str_eq(resolution, "4H") {
            Some(Timeframe::Hour4)
        } else if str_eq(resolution, "1D") || str_eq(resolution, "D") {
            Some(Timeframe::Day1)
        } else if str_eq(resolution, "1W") || str_eq(resolution, "W") {
            Some(Timeframe::Week1)
        } else if str_eq(resolution, "1M") || str_eq(resolution, "M") {
            Some(Timeframe::Month1)
        } else {
            None
        }
    }

    fn preset(l: &Vec<char>) -> (r: Option<Timeframe>)
        ensures
            r == Self::spec_preset(l@),
    {
        if chars_eq_str(l, "100ms") {
            Some(Timeframe::Ms100)
        } else if chars_eq_str(l, "250ms") {
            Some(Timeframe::Ms250)
        } else if chars_eq_str(l, "500ms") {
            Some(Timeframe::Ms500)
        } else if chars_eq_str(l, "1s") || chars_eq_str(l, "1sec") {
            Some(Timeframe::Sec1)
        } else if chars_eq_str(l, "2s") || chars_eq_str(l, "2sec") {
            Some(Timeframe::Sec2)
        } else if chars_eq_str(l, "5s") || chars_eq_str(l, "5sec") {
            Some(Timeframe::Sec5)
        } else if chars_eq_str(l, "10s") || chars_eq_str(l, "10sec") {
            Some(Timeframe::Sec10)
        } else if chars_eq_str(l, "30s") || chars_eq_str(l, "30sec") {
            Some(Timeframe::Sec30)
        } else if chars_eq_str(l, "1min") {
            Some(Timeframe::Min1)
        } else if chars_eq_str(l, "5min") {
            Some(Timeframe::Min5)
        } else if chars_eq_str(l, "15min") {
            Some(Timeframe::Min15)
        } else if chars_eq_str(l, "30min") {
            Some(Timeframe::Min30)
        } else if chars_eq_str(l, "1h") || chars_eq_str(l, "1hour") {
            Some(Timeframe::Hour1)
        } else if chars_eq_str(l, "4h") || chars_eq_str(l, "4hour") {
            Some(Timeframe::Hour4)
        } else if chars_eq_str(l, "1d") || chars_eq_str(l, "1day") {
            Some(Timeframe::Day1)
        } else if chars_eq_str(l, "1w") || chars_eq_str(l, "1week") {
            Some(Timeframe::Week1)
        } else if chars_eq_str(l, "1m") || chars_eq_str(l, "1month") {
            Some(Timeframe::Month1)
        } else {
            None
        }
    }

    /// Parses the lower-cased text `lower` of the input `original`.
    pub fn parse_lowercase(lower: &Vec<char>, original: &str) -> (r: Result<Timeframe, String>)
        ensures
            match Self::spec_parse_lower(lower@, original@) {
                Ok(tf) => r == Ok::<Timeframe, String>(tf),
                Err(m) => r is Err && r->Err_0@ == m,
            },
    {
        if let Some(tf) = Self::preset(lower) {
            return Ok(tf);
        }
        match parse_custom_timeframe(lower) {
            Some(seconds) => {
                if seconds == 0 {
                    Err("Custom timeframe must be greater than zero".to_owned())
                } else if seconds <= u64::MAX as u128 {
                    Ok(Timeframe::Custom(seconds as u64))
                } else {
                    Err(invalid_message(original))
                }
            },
            None => Err(invalid_message(original)),
        }
    }

    /// Parses a timeframe label, ignoring case.
    ///
    /// Presets are tried first (`"1s"` is [`Timeframe::Sec1`], not a custom
    /// timeframe); otherwise a custom `<number><unit>` is read. A custom length
    /// of zero, or one whose number of seconds does not fit in a `u64`, is refused.
    pub fn parse_str(s: &str) -> (r: Result<Timeframe, String>)
        ensures
            match Self::spec_parse_lower(folded(s@), s@) {
                Ok(tf) => r == Ok::<Timeframe, String>(tf),
                Err(m) => r is Err && r->Err_0@ == m,
            },
    {
        let lower = fold_case(s);
        let chars = chars_of(lower.as_str());
        Self::parse_lowercase(&chars, s)
    }
}

fn invalid_message(s: &str) -> (r: String)
    ensures
        r@ == spec_invalid_message(s@),
{
    let mut m = "Invalid timeframe '".to_owned();
    push_str(&mut m, s);
    push_str(
        &mut m,
        "'. Valid formats: 100ms, 250ms, 500ms, 1s-30s, 1min-30min, 1h, 4h, 1D, 1W, 1M, or custom (e.g. 45s, 3min, 2h)",
    );
    m
}

/// Whether `s` ends with `suffix`.
fn chars_end_with(s: &Vec<char>, suffix: &str) -> (r: bool)
    ensures
        r == ends_with(s@, suffix@),
{
    let n = suffix.unicode_len();
    if n > s.len() {
        return false;
    }
    let start = s.len() - n;
    let mut i: usize = 0;
    while i < n
        invariant
            n == suffix@.len(),
            n <= s@.len(),
            start + n == s.len(),
            i <= n,
            forall|j: int| 0 <= j < i ==> s@[start + j] == suffix@[j],
        decreases n - i,
    {
        if s[start + i] != suffix.get_char(i) {
            assert(s@.subrange(start as int, s@.len() as int)[i as int] == s@[start + i]);
            return false;
        }
        i = i + 1;
    }
    assert(s@.subrange(start as int, s@.len() as int) =~= suffix@);
    true
}

/// Parse a custom timeframe string like "45s", "3min", "2h", "2d"
/// and return the total number of seconds.
///
/// Note: "m" suffix is intentionally excluded to avoid ambiguity with months.
/// Use "min" for minutes (e.g. "3min", "45min").
fn parse_custom_timeframe(l: &Vec<char>) -> (r: Option<u128>)
    ensures
        match spec_custom_seconds(l@) {
            Some(n) => n <= u64::MAX * 2592000 && r == Some(n as u128),
            None => r is None,
        },
{
    let suffixes: [(&str, u64); 9] = [
        ("month", 2_592_000),
        ("hour", 3600),
        ("min", 60),
        ("sec", 1),
        ("day", 86400),
        ("s", 1),
        ("h", 3600),
        ("d", 86400),
        ("w", 604_800),
    ];
    assert(suffixes@.len() == 9);
    assert(forall|k: int| 0 <= k < 9 ==> #[trigger] suffixes@[k].0@ == spec_suffixes()[k].0
        && suffixes@[k].1 == spec_suffixes()[k].1);
    let mut k: usize = 0;
    while k < 9
        invariant
            k <= 9,
            forall|j: int| 0 <= j < 9 ==> #[trigger] suffixes@[j].0@ == spec_suffixes()[j].0
                && suffixes@[j].1 == spec_suffixes()[j].1,
            spec_custom_seconds(l@) == spec_custom_seconds_from(l@, k as nat),
        decreases 9 - k,
    {
        let (suffix, mult) = suffixes[k];
        if chars_end_with(l, suffix) {
            let n = suffix.unicode_len();
            let (lo, hi) = trim_bounds(l, 0, l.len() - n);
            match parse_u64_range(l, lo, hi) {
                Some(num) => {
                    proof {
                        assert(num * mult <= u64::MAX * 2592000) by (nonlinear_arith)
                            requires num <= u64::MAX, mult <= 2592000;
                    }
                    return Some(num as u128 * mult as u128);
                },
                None => return None,
            }
        }
        k = k + 1;
    }
    let (lo, hi) = trim_bounds(l, 0, l.len());
    assert(l@.subrange(0, l@.len() as int) =~= l@);
    match parse_u64_range(l, lo, hi) {
        Some(num) => Some(num as u128 * 60),
        None => None,
    }
}

/// Format a custom seconds value into a human-readable label.
/// Chooses the largest clean unit: days > hours > minutes > seconds.
fn format_custom_seconds(seconds: u64) -> (r: String)
    ensures
        r@ == spec_custom_label(seconds as nat),
{
    if seconds == 0 {
        return "0s".to_owned();
    }
    let (count, unit) = if seconds >= 86400 && seconds % 86400 == 0 {
        (seconds / 86400, "D")
    } else if seconds >= 3600 && seconds % 3600 == 0 {
        (seconds / 3600, "h")
    } else if seconds >= 60 && seconds % 60 == 0 {
        (seconds / 60, "min")
    } else {
        (seconds, "s")
    };
    let digits = u64_to_decimal(count);
    let mut r = string_from_chars(&digits);
    push_str(&mut r, unit);
    r
}

impl Default for Timeframe {
    /// Default timeframe is 1 minute
    fn default() -> (r: Self)
        ensures
            r == Timeframe::Min1,
    {
        Timeframe::Min1
    }
}

impl FromStr for Timeframe {
    type Err = String;

    fn from_str(s: &str) -> (r: Result<Self, Self::Err>)
        ensures
            match Self::spec_parse_lower(folded(s@), s@) {
                Ok(tf) => r == Ok::<Timeframe, String>(tf),
                Err(m) => r is Err && r->Err_0@ == m,
            },
    {
        Timeframe::parse_str(s)
    }
}


/// The last characters of a text agree with those of a suffix it ends with.
proof fn lemma_ends_with_chars(l: Seq<char>, sfx: Seq<char>)
    requires
        ends_with(l, sfx),
    ensures
        forall|i: int| 0 <= i < sfx.len() ==> l[l.len() - sfx.len() + i] == #[trigger] sfx[i],
{
    assert forall|i: int| 0 <= i < sfx.len() implies l[l.len() - sfx.len() + i] == #[trigger] sfx[i] by {
        assert(l.subrange(l.len() - sfx.len(), l.len() as int)[i] == sfx[i]);
    }
}

/// Suffix `j` of the table does not end the text: the search goes on with the next.
proof fn lemma_skip_suffix(l: Seq<char>, j: nat)
    requires
        j < 9,
        !ends_with(l, spec_suffixes()[j as int].0),
    ensures
        spec_custom_seconds_from(l, j) == spec_custom_seconds_from(l, j + 1),
{
}

/// No suffix from `j` up to `m` ends the text: the search reaches suffix `m`.
proof fn lemma_search_suffixes(l: Seq<char>, j: nat, m: nat)
    requires
        j <= m < 9,
        forall|i: nat| j <= i < m ==> !ends_with(l, #[trigger] spec_suffixes()[i as int].0),
    ensures
        spec_custom_seconds_from(l, j) == spec_custom_seconds_from(l, m),
    decreases m - j,
{
    if j < m {
        lemma_skip_suffix(l, j);
        lemma_search_suffixes(l, j + 1, m);
    }
}

/// The number of seconds that a lower-cased custom label of `k` units names,
/// for each unit of the suffix table.
proof fn lemma_custom_label_seconds(k: nat, sfx: Seq<char>, unit: nat)
    requires
        k <= u64::MAX,
        (sfx, unit) == ("s"@, 1nat) || (sfx, unit) == ("min"@, 60nat) || (sfx, unit) == ("h"@, 3600nat)
            || (sfx, unit) == ("d"@, 86400nat) || (sfx, unit) == ("month"@, 2592000nat) || (sfx, unit)
            == ("hour"@, 3600nat) || (sfx, unit) == ("sec"@, 1nat) || (sfx, unit) == ("day"@, 86400nat)
            || (sfx, unit) == ("w"@, 604800nat),
    ensures
        spec_custom_seconds(decimal(k) + sfx) == Some(k * unit),
{
    reveal_strlit("month");
    reveal_strlit("hour");
    reveal_strlit("min");
    reveal_strlit("sec");
    reveal_strlit("day");
    reveal_strlit("s");
    reveal_strlit("h");
    reveal_strlit("d");
    reveal_strlit("w");
    let l = decimal(k) + sfx;
    lemma_decimal(k);
    let n = decimal(k).len();
    assert(l.len() == n + sfx.len());
    assert(l[l.len() - 1] == sfx[sfx.len() - 1]);
    assert(is_digit(l[n - 1]));
    assert(l[n - 1] == decimal(k)[n - 1]);
    assert(l.subrange(0, n as int) =~= decimal(k));
    assert(l.subrange(n as int, l.len() as int) =~= sfx);
    lemma_parse_decimal(k);
    let table = spec_suffixes();
    // Which suffix of the table the label ends with.
    let m: nat = if sfx == "month"@ {
        0
    } else if sfx == "hour"@ {
        1
    } else if sfx == "min"@ {
        2
    } else if sfx == "sec"@ {
        3
    } else if sfx == "day"@ {
        4
    } else if sfx == "s"@ {
        5
    } else if sfx == "h"@ {
        6
    } else if sfx == "d"@ {
        7
    } else {
        8
    };
    assert(table[m as int].0 == sfx && table[m as int].1 == unit);
    assert forall|i: nat| i < m implies !ends_with(l, #[trigger] table[i as int].0) by {
        let t = table[i as int].0;
        if ends_with(l, t) {
            lemma_ends_with_chars(l, t);
            assert(l[l.len() - t.len() + (t.len() - 1)] == t[t.len() - 1]);
            if t.len() >= 2 && sfx.len() == 1 {
                assert(l[l.len() - t.len() + (t.len() - 2)] == t[t.len() - 2]);
            }
        }
    }
    lemma_search_suffixes(l, 0, m);
    assert(ends_with(l, sfx));
}


/// Text that starts and ends with a character other than whitespace is its own
/// trimmed form.
proof fn lemma_trim_unchanged(x: Seq<char>)
    requires
        x.len() > 0,
        !crate::text::is_whitespace(x[0]),
        !crate::text::is_whitespace(x.last()),
    ensures
        trim(x) == x,
{
    assert(crate::text::leading_ws(x) == 0);
    assert(x.skip(0) =~= x);
    assert(crate::text::trailing_ws(x) == 0);
    assert(x.take(x.len() as int) =~= x);
}

/// A number followed by `ms`, `m` or `week` has no custom reading: these units
/// are not in the suffix table, and what the table leaves is no number.
proof fn lemma_no_custom_reading(k: nat, sfx: Seq<char>)
    requires
        sfx == "ms"@ || sfx == "m"@ || sfx == "week"@,
    ensures
        spec_custom_seconds(decimal(k) + sfx) is None,
{
    reveal_strlit("month");
    reveal_strlit("hour");
    reveal_strlit("min");
    reveal_strlit("sec");
    reveal_strlit("day");
    reveal_strlit("s");
    reveal_strlit("h");
    reveal_strlit("d");
    reveal_strlit("w");
    reveal_strlit("ms");
    reveal_strlit("m");
    reveal_strlit("week");
    let l = decimal(k) + sfx;
    lemma_decimal(k);
    let n = decimal(k).len();
    assert(l.len() == n + sfx.len());
    assert(l[l.len() - 1] == sfx[sfx.len() - 1]);
    assert(l[0] == decimal(k)[0] && is_digit(l[0]));
    let table = spec_suffixes();
    let m: nat = if sfx == "ms"@ {
        5
    } else {
        8
    };
    assert forall|i: nat| i < m implies !ends_with(l, #[trigger] table[i as int].0) by {
        let t = table[i as int].0;
        if ends_with(l, t) {
            lemma_ends_with_chars(l, t);
            assert(l[l.len() - t.len() + (t.len() - 1)] == t[t.len() - 1]);
        }
    }
    lemma_search_suffixes(l, 0, m);
    if sfx == "ms"@ {
        assert(ends_with(l, "s"@)) by {
            assert(l.subrange(l.len() - 1, l.len() as int) =~= "s"@);
        }
        let x = l.subrange(0, l.len() - 1);
        assert(x.last() == 'm');
        lemma_trim_unchanged(x);
        assert(!is_digit(x[x.len() - 1]));
    } else {
        assert(!ends_with(l, table[8].0)) by {
            if ends_with(l, table[8].0) {
                assert(table[8].0 == "w"@);
                lemma_ends_with_chars(l, "w"@);
                assert("w"@[0] == 'w');
                assert(l[l.len() - 1 + 0] == 'w');
            }
        }
        lemma_skip_suffix(l, 8);
        lemma_trim_unchanged(l);
        assert(!is_digit(l[l.len() - 1]));
    }
}

/// Whole seconds of a preset, or of a custom length.
pub open spec fn spec_seconds(tf: Timeframe) -> int {
    tf.spec_duration_ms() / 1000
}

/// A lower-cased label of `k` units that names a preset names one of the same
/// length in seconds.
proof fn lemma_preset_of_label(k: nat, sfx: Seq<char>, unit: nat)
    requires
        k <= u64::MAX,
        (sfx, unit) == ("s"@, 1nat) || (sfx, unit) == ("min"@, 60nat) || (sfx, unit) == ("h"@, 3600nat)
            || (sfx, unit) == ("d"@, 86400nat),
    ensures
        Timeframe::spec_preset(decimal(k) + sfx) matches Some(p) ==> spec_seconds(p) == k * unit
            && p.spec_duration_ms() == k * unit * 1000,
{
    let l = decimal(k) + sfx;
    lemma_decimal(k);
    lemma_custom_label_seconds(k, sfx, unit);
    reveal_strlit("s");
    reveal_strlit("min");
    reveal_strlit("h");
    reveal_strlit("d");
    let n = decimal(k).len();
    assert(l[l.len() - 1] == sfx[sfx.len() - 1]);
    assert(l[n - 1] == decimal(k)[n - 1] && is_digit(l[n - 1]));
    if let Some(p) = Timeframe::spec_preset(l) {
        reveal_strlit("100ms");
        reveal_strlit("250ms");
        reveal_strlit("500ms");
        reveal_strlit("1s");
        reveal_strlit("1sec");
        reveal_strlit("2s");
        reveal_strlit("2sec");
        reveal_strlit("5s");
        reveal_strlit("5sec");
        reveal_strlit("10s");
        reveal_strlit("10sec");
        reveal_strlit("30s");
        reveal_strlit("30sec");
        reveal_strlit("1min");
        reveal_strlit("5min");
        reveal_strlit("15min");
        reveal_strlit("30min");
        reveal_strlit("1h");
        reveal_strlit("1hour");
        reveal_strlit("4h");
        reveal_strlit("4hour");
        reveal_strlit("1d");
        reveal_strlit("1day");
        reveal_strlit("1w");
        reveal_strlit("1week");
        reveal_strlit("1m");
        reveal_strlit("1month");
        // The labels of presets that can be written as `k` units.
        lemma_custom_label_seconds(1, "s"@, 1);
        lemma_custom_label_seconds(2, "s"@, 1);
        lemma_custom_label_seconds(5, "s"@, 1);
        lemma_custom_label_seconds(10, "s"@, 1);
        lemma_custom_label_seconds(30, "s"@, 1);
        lemma_custom_label_seconds(1, "min"@, 60);
        lemma_custom_label_seconds(5, "min"@, 60);
        lemma_custom_label_seconds(15, "min"@, 60);
        lemma_custom_label_seconds(30, "min"@, 60);
        lemma_custom_label_seconds(1, "h"@, 3600);
        lemma_custom_label_seconds(4, "h"@, 3600);
        lemma_custom_label_seconds(1, "d"@, 86400);
        assert(decimal(1) + "s"@ =~= "1s"@);
        assert(decimal(2) + "s"@ =~= "2s"@);
        assert(decimal(5) + "s"@ =~= "5s"@);
        assert(decimal(10) + "s"@ =~= "10s"@);
        assert(decimal(30) == decimal(3).push('0'));
        assert(decimal(30) + "s"@ =~= "30s"@);
        assert(decimal(1) + "min"@ =~= "1min"@);
        assert(decimal(5) + "min"@ =~= "5min"@);
        assert(decimal(15) + "min"@ =~= "15min"@);
        assert(decimal(30) + "min"@ =~= "30min"@);
        assert(decimal(1) + "h"@ =~= "1h"@);
        assert(decimal(4) + "h"@ =~= "4h"@);
        assert(decimal(1) + "d"@ =~= "1d"@);
        if sfx.len() == 1 {
            assert(l[l.len() - 2] == l[n - 1]);
        } else {
            assert(l[l.len() - 4] == l[n - 1]);
        }
    }
}


/// Text without upper-case ASCII letters is its own lower-case form.
proof fn lemma_ascii_lower_same(s: Seq<char>)
    requires
        forall|i: int| 0 <= i < s.len() ==> !('A' <= #[trigger] s[i] && s[i] <= 'Z'),
    ensures
        ascii_lower(s) == s,
{
    assert(ascii_lower(s) =~= s);
}

/// Lower-casing a custom label lower-cases its unit only.
proof fn lemma_ascii_lower_label(k: nat, upper: Seq<char>, lower: Seq<char>)
    requires
        (upper, lower) == ("s"@, "s"@) || (upper, lower) == ("min"@, "min"@) || (upper, lower) == (
            "h"@,
            "h"@,
        ) || (upper, lower) == ("D"@, "d"@),
    ensures
        ascii_lower(decimal(k) + upper) == decimal(k) + lower,
{
    reveal_strlit("s");
    reveal_strlit("min");
    reveal_strlit("h");
    reveal_strlit("D");
    reveal_strlit("d");
    lemma_decimal(k);
    let a = decimal(k) + upper;
    let b = decimal(k) + lower;
    assert forall|i: int| 0 <= i < a.len() implies #[trigger] ascii_lower(a)[i] == b[i] by {
        if i < decimal(k).len() {
            assert(is_digit(decimal(k)[i]));
        } else if upper == "D"@ {
            assert(('D' as u32) + 32 == 'd' as u32);
        }
    }
    assert(ascii_lower(a) =~= b);
}

/// A custom label of `k` units of `unit` seconds, lower-cased, parses back to a
/// timeframe of `k * unit` seconds.
proof fn lemma_custom_parses_back(n: nat, k: nat, upper: Seq<char>, lower: Seq<char>, unit: nat)
    requires
        0 < n <= u64::MAX,
        n == k * unit,
        (upper, lower, unit) == ("s"@, "s"@, 1nat) || (upper, lower, unit) == ("min"@, "min"@, 60nat)
            || (upper, lower, unit) == ("h"@, "h"@, 3600nat) || (upper, lower, unit) == (
            "D"@,
            "d"@,
            86400nat,
        ),
        spec_custom_label(n) == decimal(k) + upper,
    ensures
        Timeframe::spec_parse_lower(
            ascii_lower(spec_custom_label(n)),
            spec_custom_label(n),
        ) matches Ok(back) && back.spec_duration_ms() == Timeframe::Custom(n as u64).spec_duration_ms(),
{
    assert(k <= n) by (nonlinear_arith)
        requires n == k * unit, unit >= 1;
    lemma_ascii_lower_label(k, upper, lower);
    lemma_custom_label_seconds(k, lower, unit);
    lemma_preset_of_label(k, lower, unit);
}

/// Every timeframe label is ASCII text.
proof fn lemma_label_ascii(tf: Timeframe)
    ensures
        vstd::utf8::is_ascii_chars(tf.spec_label()),
{
    reveal_strlit("100ms");
    reveal_strlit("250ms");
    reveal_strlit("500ms");
    reveal_strlit("1s");
    reveal_strlit("2s");
    reveal_strlit("5s");
    reveal_strlit("10s");
    reveal_strlit("30s");
    reveal_strlit("1min");
    reveal_strlit("5min");
    reveal_strlit("15min");
    reveal_strlit("30min");
    reveal_strlit("1h");
    reveal_strlit("4h");
    reveal_strlit("1D");
    reveal_strlit("1W");
    reveal_strlit("1M");
    reveal_strlit("0s");
    reveal_strlit("D");
    reveal_strlit("h");
    reveal_strlit("min");
    reveal_strlit("s");
    let l = tf.spec_label();
    match tf {
        Timeframe::Custom(sec) => {
            let n = sec as nat;
            if n != 0 {
                let (k, u): (nat, Seq<char>) = if n >= 86400 && n % 86400 == 0 {
                    (n / 86400, "D"@)
                } else if n >= 3600 && n % 3600 == 0 {
                    (n / 3600, "h"@)
                } else if n >= 60 && n % 60 == 0 {
                    (n / 60, "min"@)
                } else {
                    (n, "s"@)
                };
                assert(l == decimal(k) + u);
                lemma_decimal(k);
                assert forall|i: int| 0 <= i < l.len() implies '\0' <= #[trigger] l[i] <= '\u{7f}' by {
                    if i < decimal(k).len() {
                        assert(is_digit(decimal(k)[i]));
                    }
                }
            }
        },
        _ => {},
    }
}

/// For every timeframe but the zero-length custom one, its label parses back
/// (as `from_str` reads it) to a timeframe of the same length; a preset parses back to
/// itself, and so does a custom timeframe whose lower-cased label is not that
/// of a preset (a custom timeframe of 60 seconds is labelled `"1min"`, which
/// reads back as the one-minute preset).
pub proof fn label_parses_back(tf: Timeframe)
    requires
        tf != Timeframe::Custom(0),
    ensures
        Timeframe::spec_parse_lower(folded(tf.spec_label()), tf.spec_label()) matches Ok(back)
            && back.spec_duration_ms() == tf.spec_duration_ms() && (!(tf is Custom) ==> back == tf)
            && (Timeframe::spec_preset(folded(tf.spec_label())) is None ==> back == tf),
{
    lemma_label_ascii(tf);
    match tf {
        Timeframe::Custom(n) => {
            let n = n as nat;
            if n >= 86400 && n % 86400 == 0 {
                assert((n / 86400) * 86400 == n) by (nonlinear_arith)
                    requires n % 86400 == 0;
                lemma_custom_parses_back(n, n / 86400, "D"@, "d"@, 86400);
            } else if n >= 3600 && n % 3600 == 0 {
                assert((n / 3600) * 3600 == n) by (nonlinear_arith)
                    requires n % 3600 == 0;
                lemma_custom_parses_back(n, n / 3600, "h"@, "h"@, 3600);
            } else if n >= 60 && n % 60 == 0 {
                assert((n / 60) * 60 == n) by (nonlinear_arith)
                    requires n % 60 == 0;
                lemma_custom_parses_back(n, n / 60, "min"@, "min"@, 60);
            } else {
                lemma_custom_parses_back(n, n, "s"@, "s"@, 1);
            }
            let l = ascii_lower(tf.spec_label());
            if Timeframe::spec_preset(l) is None {
                let back = Timeframe::spec_parse_lower(l, tf.spec_label())->Ok_0;
                assert(back is Custom);
                let a = back->Custom_0;
                let b = tf->Custom_0;
                assert((a as i64) == (b as i64));
                assert(a == b) by (bit_vector)
                    requires (a as i64) == (b as i64);
                assert(back == tf);
            }
        },
        _ => {
            reveal_strlit("100ms");
            reveal_strlit("250ms");
            reveal_strlit("500ms");
            reveal_strlit("1s");
            reveal_strlit("1sec");
            reveal_strlit("2s");
            reveal_strlit("2sec");
            reveal_strlit("5s");
            reveal_strlit("5sec");
            reveal_strlit("10s");
            reveal_strlit("10sec");
            reveal_strlit("30s");
            reveal_strlit("30sec");
            reveal_strlit("1min");
            reveal_strlit("5min");
            reveal_strlit("15min");
            reveal_strlit("30min");
            reveal_strlit("1h");
            reveal_strlit("1hour");
            reveal_strlit("4h");
            reveal_strlit("4hour");
            reveal_strlit("1d");
            reveal_strlit("1day");
            reveal_strlit("1w");
            reveal_strlit("1week");
            reveal_strlit("1m");
            reveal_strlit("1month");
            reveal_strlit("1D");
            reveal_strlit("1W");
            reveal_strlit("1M");
            let label = tf.spec_label();
            if tf == Timeframe::Day1 || tf == Timeframe::Week1 || tf == Timeframe::Month1 {
                let lower = if tf == Timeframe::Day1 {
                    "1d"@
                } else if tf == Timeframe::Week1 {
                    "1w"@
                } else {
                    "1m"@
                };
                assert(('D' as u32) + 32 == 'd' as u32);
                assert(('W' as u32) + 32 == 'w' as u32);
                assert(('M' as u32) + 32 == 'm' as u32);
                assert(ascii_lower(label) =~= lower);
            } else {
                lemma_ascii_lower_same(label);
            }
        },
    }
}

/// A number followed by a unit word splits back into that number and that unit.
proof fn lemma_unit_split(a: nat, u: Seq<char>, b: nat, v: Seq<char>)
    requires
        decimal(a) + u == decimal(b) + v,
        u.len() > 0,
        v.len() > 0,
        !is_digit(u[0]),
        !is_digit(v[0]),
    ensures
        a == b,
        u == v,
{
    lemma_decimal(a);
    lemma_decimal(b);
    let x = decimal(a);
    let y = decimal(b);
    let l = x + u;
    if x.len() < y.len() {
        assert(l[x.len() as int] == u[0]);
        assert(l[x.len() as int] == (y + v)[x.len() as int]);
        assert(is_digit(y[x.len() as int]));
    } else if y.len() < x.len() {
        assert((y + v)[y.len() as int] == v[0]);
        assert(l[y.len() as int] == x[y.len() as int]);
        assert(is_digit(x[y.len() as int]));
    }
    assert(x =~= l.subrange(0, x.len() as int));
    assert(y =~= (y + v).subrange(0, y.len() as int));
    assert(u =~= l.subrange(x.len() as int, l.len() as int));
    assert(v =~= (y + v).subrange(y.len() as int, (y + v).len() as int));
}

/// A length written as a number followed by a unit word (`ms`, `s`, `sec`,
/// `min`, `m`, `h`, `hour`, `d`, `day`, `w`, `week`, `month`, as `from_str`
/// reads text of that form) is read, when it is read at all, as a timeframe of
/// that many units: `4hour` and `4h` are four hours long, `30sec` thirty seconds,
/// and `45min` forty-five minutes. Where the unit is one that custom lengths
/// take (all but `ms`, `m` and `week`, which only the presets spell) and the
/// number is not zero, the text is always read. Lengths whose milliseconds do not
/// fit in an `i64` are left out.
pub proof fn spelled_lengths_parse_to_their_duration(k: nat, u: Seq<char>, ms: int)
    requires
        (u, ms) == ("ms"@, 1int) || (u, ms) == ("s"@, 1000int) || (u, ms) == ("sec"@, 1000int) || (u, ms) == ("min"@, 60_000int) || (u, ms) == ("m"@, 2_592_000_000int) || (u, ms) == ("h"@, 3_600_000int) || (u, ms) == ("hour"@, 3_600_000int) || (u, ms) == ("d"@, 86_400_000int) || (u, ms) == ("day"@, 86_400_000int) || (u, ms) == ("w"@, 604_800_000int) || (u, ms) == ("week"@, 604_800_000int) || (u, ms) == ("month"@, 2_592_000_000int),
        k * ms <= i64::MAX * 1000,
    ensures
        ({
            let text = decimal(k) + u;
            &&& Timeframe::spec_parse_lower(folded(text), text) matches Ok(tf) ==> tf.spec_duration_ms()
                == k * ms
            &&& (k > 0 && !(u == "ms"@ || u == "m"@ || u == "week"@)) ==> Timeframe::spec_parse_lower(
                folded(text),
                text,
            ) is Ok
        }),
{
    reveal_strlit("100ms");
    reveal_strlit("10s");
    reveal_strlit("10sec");
    reveal_strlit("15min");
    reveal_strlit("1d");
    reveal_strlit("1day");
    reveal_strlit("1h");
    reveal_strlit("1hour");
    reveal_strlit("1m");
    reveal_strlit("1min");
    reveal_strlit("1month");
    reveal_strlit("1s");
    reveal_strlit("1sec");
    reveal_strlit("1w");
    reveal_strlit("1week");
    reveal_strlit("250ms");
    reveal_strlit("2s");
    reveal_strlit("2sec");
    reveal_strlit("30min");
    reveal_strlit("30s");
    reveal_strlit("30sec");
    reveal_strlit("4h");
    reveal_strlit("4hour");
    reveal_strlit("500ms");
    reveal_strlit("5min");
    reveal_strlit("5s");
    reveal_strlit("5sec");
    reveal_strlit("d");
    reveal_strlit("day");
    reveal_strlit("h");
    reveal_strlit("hour");
    reveal_strlit("m");
    reveal_strlit("min");
    reveal_strlit("month");
    reveal_strlit("ms");
    reveal_strlit("s");
    reveal_strlit("sec");
    reveal_strlit("w");
    reveal_strlit("week");
    let l = decimal(k) + u;
    lemma_decimal(k);
    assert(vstd::utf8::is_ascii_chars(l)) by {
        assert forall|i: int| 0 <= i < l.len() implies '\0' <= #[trigger] l[i] <= '\u{7f}' by {
            if i < decimal(k).len() {
                assert(is_digit(decimal(k)[i]));
            }
        }
    }
    assert forall|i: int| 0 <= i < l.len() implies !('A' <= #[trigger] l[i] && l[i] <= 'Z') by {
        if i < decimal(k).len() {
            assert(is_digit(decimal(k)[i]));
        }
    }
    lemma_ascii_lower_same(l);
    assert(folded(l) == l);
    assert(decimal(10) == decimal(1).push('0'));
    assert(decimal(15) == decimal(1).push('5'));
    assert(decimal(25) == decimal(2).push('5'));
    assert(decimal(30) == decimal(3).push('0'));
    assert(decimal(50) == decimal(5).push('0'));
    assert(decimal(100) == decimal(10).push('0'));
    assert(decimal(250) == decimal(25).push('0'));
    assert(decimal(500) == decimal(50).push('0'));
    if let Some(p) = Timeframe::spec_preset(l) {
        if l == "100ms"@ {
            assert(decimal(100) + "ms"@ =~= "100ms"@);
            lemma_unit_split(k, u, 100, "ms"@);
        } else if l == "250ms"@ {
            assert(decimal(250) + "ms"@ =~= "250ms"@);
            lemma_unit_split(k, u, 250, "ms"@);
        } else if l == "500ms"@ {
            assert(decimal(500) + "ms"@ =~= "500ms"@);
            lemma_unit_split(k, u, 500, "ms"@);
        } else if l == "1s"@ {
            assert(decimal(1) + "s"@ =~= "1s"@);
            lemma_unit_split(k, u, 1, "s"@);
        } else if l == "1sec"@ {
            assert(decimal(1) + "sec"@ =~= "1sec"@);
            lemma_unit_split(k, u, 1, "sec"@);
        } else if l == "2s"@ {
            assert(decimal(2) + "s"@ =~= "2s"@);
            lemma_unit_split(k, u, 2, "s"@);
        } else if l == "2sec"@ {
            assert(decimal(2) + "sec"@ =~= "2sec"@);
            lemma_unit_split(k, u, 2, "sec"@);
        } else if l == "5s"@ {
            assert(decimal(5) + "s"@ =~= "5s"@);
            lemma_unit_split(k, u, 5, "s"@);
        } else if l == "5sec"@ {
            assert(decimal(5) + "sec"@ =~= "5sec"@);
            lemma_unit_split(k, u, 5, "sec"@);
        } else if l == "10s"@ {
            assert(decimal(10) + "s"@ =~= "10s"@);
            lemma_unit_split(k, u, 10, "s"@);
        } else if l == "10sec"@ {
            assert(decimal(10) + "sec"@ =~= "10sec"@);
            lemma_unit_split(k, u, 10, "sec"@);
        } else if l == "30s"@ {
            assert(decimal(30) + "s"@ =~= "30s"@);
            lemma_unit_split(k, u, 30, "s"@);
        } else if l == "30sec"@ {
            assert(decimal(30) + "sec"@ =~= "30sec"@);
            lemma_unit_split(k, u, 30, "sec"@);
        } else if l == "1min"@ {
            assert(decimal(1) + "min"@ =~= "1min"@);
            lemma_unit_split(k, u, 1, "min"@);
        } else if l == "5min"@ {
            assert(decimal(5) + "min"@ =~= "5min"@);
            lemma_unit_split(k, u, 5, "min"@);
        } else if l == "15min"@ {
            assert(decimal(15) + "min"@ =~= "15min"@);
            lemma_unit_split(k, u, 15, "min"@);
        } else if l == "30min"@ {
            assert(decimal(30) + "min"@ =~= "30min"@);
            lemma_unit_split(k, u, 30, "min"@);
        } else if l == "1h"@ {
            assert(decimal(1) + "h"@ =~= "1h"@);
            lemma_unit_split(k, u, 1, "h"@);
        } else if l == "1hour"@ {
            assert(decimal(1) + "hour"@ =~= "1hour"@);
            lemma_unit_split(k, u, 1, "hour"@);
        } else if l == "4h"@ {
            assert(decimal(4) + "h"@ =~= "4h"@);
            lemma_unit_split(k, u, 4, "h"@);
        } else if l == "4hour"@ {
            assert(decimal(4) + "hour"@ =~= "4hour"@);
            lemma_unit_split(k, u, 4, "hour"@);
        } else if l == "1d"@ {
            assert(decimal(1) + "d"@ =~= "1d"@);
            lemma_unit_split(k, u, 1, "d"@);
        } else if l == "1day"@ {
            assert(decimal(1) + "day"@ =~= "1day"@);
            lemma_unit_split(k, u, 1, "day"@);
        } else if l == "1w"@ {
            assert(decimal(1) + "w"@ =~= "1w"@);
            lemma_unit_split(k, u, 1, "w"@);
        } else if l == "1week"@ {
            assert(decimal(1) + "week"@ =~= "1week"@);
            lemma_unit_split(k, u, 1, "week"@);
        } else if l == "1m"@ {
            assert(decimal(1) + "m"@ =~= "1m"@);
            lemma_unit_split(k, u, 1, "m"@);
        } else if l == "1month"@ {
            assert(decimal(1) + "month"@ =~= "1month"@);
            lemma_unit_split(k, u, 1, "month"@);
        }
    } else if u == "ms"@ || u == "m"@ || u == "week"@ {
        lemma_no_custom_reading(k, u);
    } else {
        let unit: nat = if u == "month"@ {
            2592000
        } else if u == "hour"@ || u == "h"@ {
            3600
        } else if u == "min"@ {
            60
        } else if u == "sec"@ || u == "s"@ {
            1
        } else if u == "day"@ || u == "d"@ {
            86400
        } else {
            604800
        };
        assert(ms == unit * 1000);
        assert(k * unit <= i64::MAX) by (nonlinear_arith)
            requires k * ms <= i64::MAX * 1000, ms == unit * 1000;
        assert(k <= k * unit) by (nonlinear_arith)
            requires unit >= 1;
        assert(k > 0 ==> k * unit > 0) by (nonlinear_arith)
            requires unit >= 1;
        assert(k * ms == (k * unit) * 1000) by (nonlinear_arith)
            requires ms == unit * 1000;
        lemma_custom_label_seconds(k, u, unit);
        let n = k * unit;
        if n > 0 {
            assert((n as u64) as i64 == n);
        }
    }
}

/// Every resolution's name maps to a timeframe of the same length, except the
/// three-minute and two-hour resolutions ("3" and "120"), which have none.
pub proof fn resolution_names_map_to_timeframes(r: Resolution)
    ensures
        Timeframe::spec_from_resolution(r.spec_name()) is None <==> (r == Resolution::M3 || r
            == Resolution::H2),
        Timeframe::spec_from_resolution(r.spec_name()) matches Some(tf) ==> tf.spec_total_seconds()
            == r.spec_seconds(),
{
    reveal_strlit("1");
    reveal_strlit("3");
    reveal_strlit("5");
    reveal_strlit("15");
    reveal_strlit("30");
    reveal_strlit("60");
    reveal_strlit("120");
    reveal_strlit("240");
    reveal_strlit("1D");
    reveal_strlit("1W");
    reveal_strlit("1M");
    reveal_strlit("1H");
    reveal_strlit("4H");
    reveal_strlit("D");
    reveal_strlit("W");
    reveal_strlit("M");
    let name = r.spec_name();
    match r {
        Resolution::M1 => {
            assert(Timeframe::spec_from_resolution(name) == Some(Timeframe::Min1));
        },
        Resolution::M3 => {
            assert(name[0] != ("1"@)[0]);
            assert(name[0] != ("5"@)[0]);
            assert(name.len() != ("15"@).len());
            assert(name.len() != ("30"@).len());
            assert(name.len() != ("60"@).len());
            assert(name.len() != ("1H"@).len());
            assert(name.len() != ("240"@).len());
            assert(name.len() != ("4H"@).len());
            assert(name.len() != ("1D"@).len());
            assert(name[0] != ("D"@)[0]);
            assert(name.len() != ("1W"@).len());
            assert(name[0] != ("W"@)[0]);
            assert(name.len() != ("1M"@).len());
            assert(name[0] != ("M"@)[0]);
            assert(Timeframe::spec_from_resolution(name) is None);
        },
        Resolution::M5 => {
            assert(name[0] != ("1"@)[0]);
            assert(Timeframe::spec_from_resolution(name) == Some(Timeframe::Min5));
        },
        Resolution::M15 => {
            assert(name.len() != ("1"@).len());
            assert(name.len() != ("5"@).len());
            assert(Timeframe::spec_from_resolution(name) == Some(Timeframe::Min15));
        },
        Resolution::M30 => {
            assert(name.len() != ("1"@).len());
            assert(name.len() != ("5"@).len());
            assert(name[0] != ("15"@)[0]);
            assert(Timeframe::spec_from_resolution(name) == Some(Timeframe::Min30));
        },
        Resolution::H1 => {
            assert(name.len() != ("1"@).len());
            assert(name.len() != ("5"@).len());
            assert(name[0] != ("15"@)[0]);
            assert(name[0] != ("30"@)[0]);
            assert(Timeframe::spec_from_resolution(name) == Some(Timeframe::Hour1));
        },
        Resolution::H2 => {
            assert(name.len() != ("1"@).len());
            assert(name.len() != ("5"@).len());
            assert(name.len() != ("15"@).len());
            assert(name.len() != ("30"@).len());
            assert(name.len() != ("60"@).len());
            assert(name.len() != ("1H"@).len());
            assert(name[0] != ("240"@)[0]);
            assert(name.len() != ("4H"@).len());
            assert(name.len() != ("1D"@).len());
            assert(name.len() != ("D"@).len());
            assert(name.len() != ("1W"@).len());
            assert(name.len() != ("W"@).len());
            assert(name.len() != ("1M"@).len());
            assert(name.len() != ("M"@).len());
            assert(Timeframe::spec_from_resolution(name) is None);
        },
        Resolution::H4 => {
            assert(name.len() != ("1"@).len());
            assert(name.len() != ("5"@).len());
            assert(name.len() != ("15"@).len());
            assert(name.len() != ("30"@).len());
            assert(name.len() != ("60"@).len());
            assert(name.len() != ("1H"@).len());
            assert(Timeframe::spec_from_resolution(name) == Some(Timeframe::Hour4));
        },
        Resolution::D1 => {
            assert(name.len() != ("1"@).len());
            assert(name.len() != ("5"@).len());
            assert(name[1] != ("15"@)[1]);
            assert(name[0] != ("30"@)[0]);
            assert(name[0] != ("60"@)[0]);
            assert(name[1] != ("1H"@)[1]);
            assert(name.len() != ("240"@).len());
            assert(name[0] != ("4H"@)[0]);
            assert(Timeframe::spec_from_resolution(name) == Some(Timeframe::Day1));
        },
        Resolution::W1 => {
            assert(name.len() != ("1"@).len());
            assert(name.len() != ("5"@).len());
            assert(name[1] != ("15"@)[1]);
            assert(name[0] != ("30"@)[0]);
            assert(name[0] != ("60"@)[0]);
            assert(name[1] != ("1H"@)[1]);
            assert(name.len() != ("240"@).len());
            assert(name[0] != ("4H"@)[0]);
            assert(name[1] != ("1D"@)[1]);
            assert(name.len() != ("D"@).len());
            assert(Timeframe::spec_from_resolution(name) == Some(Timeframe::Week1));
        },
        Resolution::MN1 => {
            assert(name.len() != ("1"@).len());
            assert(name.len() != ("5"@).len());
            assert(name[1] != ("15"@)[1]);
            assert(name[0] != ("30"@)[0]);
            assert(name[0] != ("60"@)[0]);
            assert(name[1] != ("1H"@)[1]);
            assert(name.len() != ("240"@).len());
            assert(name[0] != ("4H"@)[0]);
            assert(name[1] != ("1D"@)[1]);
            assert(name.len() != ("D"@).len());
            assert(name[1] != ("1W"@)[1]);
            assert(name.len() != ("W"@).len());
            assert(Timeframe::spec_from_resolution(name) == Some(Timeframe::Month1));
        },
    }
}

} // verus!

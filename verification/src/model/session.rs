//! Trading session management and break detection.
//!
//! Financial markets operate in defined sessions (e.g., NYSE 9:30 AM--4:00 PM
//! ET). This module provides a pluggable [`SessionProvider`] trait for
//! detecting session boundaries (daily, weekly, monthly, or custom) between
//! instants, plus concrete implementations:
//!
//! | Provider | Detects |
//! |----------|---------|
//! | [`DailySessionProvider`] | Day boundaries (configurable break hour) |
//! | [`WeeklySessionProvider`] | ISO-week boundaries |
//! | [`MonthlySessionProvider`] | Month boundaries |
//!
//! Instants are UTC times in milliseconds since the Unix epoch.
//! Use [`find_session_breaks`] to scan a sequence of bar times for all breaks.
use crate::text::{push_str, string_from_chars, u64_to_decimal};
use vstd::prelude::*;

verus! {

/// chrono's day of the week, whose variants verified code names (they carry no data).
#[verifier::external_type_specification]
pub struct ExWeekday(chrono::Weekday);

/// `chrono::Weekday` derives `Clone` together with `Copy`, so a clone is the
/// same weekday.
pub assume_specification[ <chrono::Weekday as Clone>::clone ](w: &chrono::Weekday) -> (r:
    chrono::Weekday)
    ensures
        r == *w,
;

/// Whether `chrono::DateTime::<Utc>::from_timestamp_millis` accepts an
/// instant: chrono's dates run from -262143-01-01 to +262142-12-31, so the
/// instant must lie from the first millisecond of the first date to the last
/// millisecond of the last.
pub open spec fn utc_representable(ms: i64) -> bool {
    -8_334_601_228_800_000 <= ms <= 8_210_266_876_799_999
}

/// Whole days since 1970-01-01 of the UTC date at an instant (chrono divides the
/// milliseconds by a day with Euclidean division).
pub open spec fn utc_epoch_day(ms: i64) -> int {
    (ms as int) / 86_400_000
}

/// The proleptic Gregorian date `(year, month, day)` of the day `z` days after
/// 1970-01-01, by the civil-from-days arithmetic over 400-year eras.
pub open spec fn civil_from_days(z: int) -> (int, int, int) {
    let z = z + 719_468;
    let era = z / 146_097;
    let doe = z - era * 146_097;
    let yoe = (doe - doe / 1460 + doe / 36_524 - doe / 146_096) / 365;
    let doy = doe - (365 * yoe + yoe / 4 - yoe / 100);
    let mp = (5 * doy + 2) / 153;
    let d = doy - (153 * mp + 2) / 5 + 1;
    let m = if mp < 10 { mp + 3 } else { mp - 9 };
    let y = yoe + era * 400 + if m <= 2 { 1int } else { 0int };
    (y, m, d)
}

/// Days after 1970-01-01 of the proleptic Gregorian date `(y, m, d)`.
pub open spec fn days_from_civil(y: int, m: int, d: int) -> int {
    let y = if m <= 2 { y - 1 } else { y };
    let era = y / 400;
    let yoe = y - era * 400;
    let doy = (153 * (if m > 2 { m - 3 } else { m + 9 }) + 2) / 5 + d - 1;
    let doe = yoe * 365 + yoe / 4 - yoe / 100 + doy;
    era * 146_097 + doe - 719_468
}

/// `Datelike::ordinal` of the UTC date at an instant: its day of the year, from 1.
#[verifier::opaque]
pub open spec fn utc_ordinal(ms: i64) -> u32 {
    let y = civil_from_days(utc_epoch_day(ms)).0;
    (utc_epoch_day(ms) - days_from_civil(y, 1, 1) + 1) as u32
}

/// Weekday of December 31st of year `y` in days from Monday, shifted: an ISO
/// year `y` has 53 weeks exactly when this is 4 (it ends on a Thursday) or
/// when that of `y - 1` is 3 (it starts on a Thursday).
pub open spec fn iso_year_end_day(y: int) -> int {
    (y + y / 4 - y / 100 + y / 400) % 7
}

/// Number of ISO weeks (52 or 53) of year `y`.
pub open spec fn iso_weeks_in_year(y: int) -> int {
    if iso_year_end_day(y) == 4 || iso_year_end_day(y - 1) == 3 {
        53
    } else {
        52
    }
}

/// `IsoWeek::week` of the UTC date at an instant: from the day of the year and
/// the weekday, the week that holds the date's Thursday; days before the first
/// such week belong to the last week of the year before, and days after the
/// last to week 1 of the next.
#[verifier::opaque]
pub open spec fn utc_iso_week(ms: i64) -> u32 {
    let y = civil_from_days(utc_epoch_day(ms)).0;
    let w = (utc_ordinal(ms) - (utc_weekday_from_monday(ms) + 1) + 10) / 7;
    if w < 1 {
        iso_weeks_in_year(y - 1) as u32
    } else if w > iso_weeks_in_year(y) {
        1
    } else {
        w as u32
    }
}

/// `Datelike::month` of the UTC date at an instant (from 1).
#[verifier::opaque]
pub open spec fn utc_month(ms: i64) -> u32 {
    civil_from_days(utc_epoch_day(ms)).1 as u32
}

/// `Datelike::year` of the UTC date at an instant.
#[verifier::opaque]
pub open spec fn utc_year(ms: i64) -> i32 {
    civil_from_days(utc_epoch_day(ms)).0 as i32
}

/// `Datelike::day` of the UTC date at an instant (day of the month, from 1).
#[verifier::opaque]
pub open spec fn utc_day(ms: i64) -> u32 {
    civil_from_days(utc_epoch_day(ms)).2 as u32
}

/// `Weekday::num_days_from_monday` of the UTC date at an instant: chrono counts
/// whole days since the epoch with Euclidean division, and 1 January 1970 was
/// a Thursday (3 days from Monday).
pub open spec fn utc_weekday_from_monday(ms: i64) -> int {
    ((ms as int) / 86_400_000 + 3) % 7
}

/// Seconds past UTC midnight at an instant: chrono splits the whole seconds
/// since the epoch with Euclidean division by a day.
pub open spec fn utc_seconds_of_day(ms: i64) -> int {
    (ms / 1000) % 86400
}

/// The instant (UTC milliseconds) of midnight on January 1st of a year, as
/// `NaiveDate::from_ymd_opt` and `and_hms_opt` give it: none outside chrono's
/// years -262143 to 262142.
#[verifier::opaque]
pub open spec fn utc_year_start(year: i32) -> Option<i64> {
    if -262_143 <= year <= 262_142 {
        Some((days_from_civil(year as int, 1, 1) * 86_400_000) as i64)
    } else {
        None
    }
}

/// Names the text that `DateTime::format` gives for an instant and a `strftime` pattern.
pub uninterp spec fn utc_formatted(ms: i64, pattern: Seq<char>) -> Seq<char>;

/// Calls `chrono::DateTime::from_timestamp_millis` and tells whether it returned
/// a date: the whole days since the epoch (Euclidean division) must name a date
/// between chrono's `NaiveDate::MIN` (-262143-01-01) and `NaiveDate::MAX`
/// (+262142-12-31), day -96465292 to day 95026236.
#[verifier::external_body]
pub(crate) fn is_representable(ms: i64) -> (r: bool)
    ensures
        r == utc_representable(ms),
{
    chrono::DateTime::from_timestamp_millis(ms).is_some()
}

/// Calls `Datelike::ordinal` on the UTC date at `ms`; the contract claims the
/// documented range 1 to 366.
#[verifier::external_body]
pub(crate) fn ordinal_of(ms: i64) -> (r: u32)
    requires
        utc_representable(ms),
    ensures
        r == utc_ordinal(ms),
        1 <= r <= 366,
{
    chrono::Datelike::ordinal(&chrono::DateTime::from_timestamp_millis(ms).unwrap())
}

/// Calls `IsoWeek::week` on the UTC date at `ms`; the contract claims the
/// documented range 1 to 53.
#[verifier::external_body]
fn iso_week_of(ms: i64) -> (r: u32)
    requires
        utc_representable(ms),
    ensures
        r == utc_iso_week(ms),
        1 <= r <= 53,
{
    chrono::Datelike::iso_week(&chrono::DateTime::from_timestamp_millis(ms).unwrap()).week()
}

/// Calls `Datelike::month` on the UTC date at `ms`; the contract claims the
/// documented range 1 to 12.
#[verifier::external_body]
pub(crate) fn month_of(ms: i64) -> (r: u32)
    requires
        utc_representable(ms),
    ensures
        r == utc_month(ms),
        1 <= r <= 12,
{
    chrono::Datelike::month(&chrono::DateTime::from_timestamp_millis(ms).unwrap())
}

/// Calls `Datelike::year` on the UTC date at `ms`.
#[verifier::external_body]
pub(crate) fn year_of(ms: i64) -> (r: i32)
    requires
        utc_representable(ms),
    ensures
        r == utc_year(ms),
{
    chrono::Datelike::year(&chrono::DateTime::from_timestamp_millis(ms).unwrap())
}

/// Calls `Datelike::day` on the UTC date at `ms`; the contract claims the
/// documented range 1 to 31.
#[verifier::external_body]
pub(crate) fn day_of(ms: i64) -> (r: u32)
    requires
        utc_representable(ms),
    ensures
        r == utc_day(ms),
        1 <= r <= 31,
{
    chrono::Datelike::day(&chrono::DateTime::from_timestamp_millis(ms).unwrap())
}

/// Calls `Weekday::num_days_from_monday` on the weekday of the UTC date at
/// `ms`: the day count since 1 January 1970 (a Thursday), plus three, modulo
/// seven.
#[verifier::external_body]
pub(crate) fn weekday_from_monday_of(ms: i64) -> (r: u32)
    requires
        utc_representable(ms),
    ensures
        r == utc_weekday_from_monday(ms),
{
    chrono::Datelike::weekday(&chrono::DateTime::from_timestamp_millis(ms).unwrap()).num_days_from_monday()
}

/// Calls `date_naive().and_hms_opt(hour, minute, second)` on the UTC time at
/// `ms` and gives that instant of the same UTC date in milliseconds: chrono
/// counts whole days since the epoch with Euclidean division, so the date
/// starts at `ms` rounded down to a multiple of a day.
#[verifier::external_body]
pub(crate) fn date_at(ms: i64, hour: u32, minute: u32, second: u32) -> (r: i64)
    requires
        utc_representable(ms),
        hour < 24,
        minute < 60,
        second < 60,
    ensures
        r == ms - ms % 86_400_000 + (hour * 3600 + minute * 60 + second) * 1000,
{
    let date = chrono::DateTime::from_timestamp_millis(ms).unwrap().date_naive();
    date.and_hms_opt(hour, minute, second).unwrap().and_utc().timestamp_millis()
}

/// Calls `Timelike::hour` on the UTC time at `ms`. chrono keeps the seconds
/// past midnight as the Euclidean remainder of the whole seconds by a day, and
/// the hour is that count divided by 3600.
#[verifier::external_body]
pub(crate) fn hour_of(ms: i64) -> (r: u32)
    requires
        utc_representable(ms),
    ensures
        r == utc_seconds_of_day(ms) / 3600,
{
    chrono::Timelike::hour(&chrono::DateTime::from_timestamp_millis(ms).unwrap())
}

/// Calls `Timelike::minute` on the UTC time at `ms`: the whole minutes past
/// midnight, modulo 60.
#[verifier::external_body]
pub(crate) fn minute_of(ms: i64) -> (r: u32)
    requires
        utc_representable(ms),
    ensures
        r == (utc_seconds_of_day(ms) / 60) % 60,
{
    chrono::Timelike::minute(&chrono::DateTime::from_timestamp_millis(ms).unwrap())
}

/// Calls `Timelike::second` on the UTC time at `ms`: the seconds past midnight,
/// modulo 60.
#[verifier::external_body]
pub(crate) fn second_of(ms: i64) -> (r: u32)
    requires
        utc_representable(ms),
    ensures
        r == utc_seconds_of_day(ms) % 60,
{
    chrono::Timelike::second(&chrono::DateTime::from_timestamp_millis(ms).unwrap())
}

/// The system clock's instant (`std::time::SystemTime`), carried as an opaque value.
#[verifier::external_type_specification]
#[verifier::external_body]
pub struct ExSystemTime(std::time::SystemTime);

/// Reads the system clock with `std::time::SystemTime::now`. Which instant it
/// reads depends on the clock, so nothing is stated of it.
#[verifier::external_body]
fn clock_now() -> (r: std::time::SystemTime) {
    std::time::SystemTime::now()
}

/// Calls `SystemTime::duration_since(UNIX_EPOCH)`: the span from the epoch to
/// the instant, or `None` when the instant lies before the epoch (the call's
/// error). The instant is opaque, so nothing more is stated of the span.
#[verifier::external_body]
fn since_epoch(t: &std::time::SystemTime) -> (r: Option<std::time::Duration>) {
    t.duration_since(std::time::UNIX_EPOCH).ok()
}

/// Calls `Duration::as_millis`: the whole milliseconds of the span. The span
/// is opaque, so nothing more is stated of the count.
#[verifier::external_body]
fn duration_millis(d: &std::time::Duration) -> (r: u128) {
    d.as_millis()
}

/// The instant `m` milliseconds after the epoch, where it fits in an `i64` and
/// chrono can represent it.
pub open spec fn spec_instant_from_millis(m: u128) -> Option<i64> {
    if m <= i64::MAX && utc_representable(m as i64) {
        Some(m as i64)
    } else {
        None
    }
}

/// The instant `m` milliseconds after the epoch, where it fits in an `i64` and
/// chrono can represent it; `None` otherwise.
pub(crate) fn instant_from_millis(m: u128) -> (r: Option<i64>)
    ensures
        r == spec_instant_from_millis(m),
{
    if m <= 0x7fff_ffff_ffff_ffff {
        let ms = m as i64;
        if is_representable(ms) {
            Some(ms)
        } else {
            None
        }
    } else {
        None
    }
}

/// The current instant in UTC milliseconds, read from the system clock:
/// `None` when the clock reads before 1970 or an instant chrono cannot
/// represent.
pub(crate) fn now_millis() -> (r: Option<i64>)
    ensures
        r is None || exists|m: u128| r == spec_instant_from_millis(m),
        r matches Some(ms) ==> utc_representable(ms) && 0 <= ms,
{
    let t = clock_now();
    match since_epoch(&t) {
        Some(d) => instant_from_millis(duration_millis(&d)),
        None => None,
    }
}

/// Calls `NaiveDate::from_ymd_opt(year, 1, 1)`, then `and_hms_opt(0, 0, 0)`,
/// and gives the instant in UTC milliseconds; the contract names the result.
#[verifier::external_body]
pub(crate) fn year_start_of(year: i32) -> (r: Option<i64>)
    ensures
        r == utc_year_start(year),
{
    let date = chrono::NaiveDate::from_ymd_opt(year, 1, 1)?;
    Some(date.and_hms_opt(0, 0, 0)?.and_utc().timestamp_millis())
}

/// The `strftime` patterns that the library formats instants with: break labels
/// and time-axis labels.
pub open spec fn known_pattern(p: Seq<char>) -> bool {
    ||| p == "%Y-%m-%d"@
    ||| p == "%B %Y"@
    ||| p == "%Y"@
    ||| p == "%b"@
    ||| p == "%b %d"@
    ||| p == "%H:%M"@
    ||| p == "%I:%M %p"@
    ||| p == "%H:%M:%S"@
    ||| p == "%I:%M:%S %p"@
}

/// Calls `DateTime::format` with one of the library's patterns (all valid
/// `strftime` specifiers, so rendering cannot fail) and renders it; the contract
/// names the text and says nothing of its content.
#[verifier::external_body]
pub(crate) fn format_utc(ms: i64, pattern: &str) -> (r: String)
    requires
        utc_representable(ms),
        known_pattern(pattern@),
    ensures
        r@ == utc_formatted(ms, pattern@),
{
    chrono::DateTime::from_timestamp_millis(ms).unwrap().format(pattern).to_string()
}

/// Classification of a session break.
#[derive(Debug, Clone, Copy, PartialEq, Eq, Hash, Structural)]
pub enum SessionBreakType {
    /// Daily session break (end of trading day)
    Daily,
    /// Weekly session break (end of trading week)
    Weekly,
    /// Monthly session break (end of trading month)
    Monthly,
    /// Custom session break
    Custom,
}

/// A detected session break with metadata.
///
/// Produced by [`SessionProvider::session_break_between`] when a session
/// boundary falls between two instants. Contains the break instant, type,
/// and an optional human-readable label for rendering on the time axis.
#[derive(Debug, Clone)]
pub struct SessionBreak {
    /// Instant of the break (UTC milliseconds)
    pub ts: i64,
    /// Type of session break
    pub break_type: SessionBreakType,
    /// Optional label to display
    pub label: Option<String>,
}

/// The text of an optional label.
pub open spec fn label_view(label: Option<String>) -> Option<Seq<char>> {
    match label {
        Some(text) => Some(text@),
        None => None,
    }
}

/// Trait for defining trading session boundaries.
///
/// Implement this to create custom session-break logic (e.g., exchange-
/// specific holidays, pre-market/after-hours splits, or futures roll dates).
pub trait SessionProvider {
    /// Whether a session break falls between the two instants.
    spec fn spec_has_break(&self, from: i64, to: i64) -> bool;

    /// The kind of break reported between the two instants, where there is one.
    spec fn spec_break_type(&self, from: i64, to: i64) -> SessionBreakType;

    /// The label of the break reported between the two instants, where there is one.
    spec fn spec_break_label(&self, from: i64, to: i64) -> Option<Seq<char>>;

    /// Check if a session break occurs between two instants.
    /// Returns `Some(SessionBreak)` if there's a break, `None` otherwise.
    fn session_break_between(&self, from: i64, to: i64) -> (r: Option<SessionBreak>)
        requires
            utc_representable(from),
            utc_representable(to),
        ensures
            r is Some <==> self.spec_has_break(from, to),
            r matches Some(b) ==> b.ts == to && b.break_type == self.spec_break_type(from, to)
                && label_view(b.label) == self.spec_break_label(from, to),
    ;

    /// Get all session breaks within a time range, probing it minute by minute
    /// from `start` while the probe lies before `end`: one break for each probe
    /// step across which a break falls, in the order of the probes.
    #[verifier::rlimit(40)]
    fn session_breaks_in_range(&self, start: i64, end: i64) -> (r: Vec<SessionBreak>)
        requires
            end <= i64::MAX - 60000,
            forall|k: int|
                0 <= k <= minute_steps(start, end) ==> utc_representable(
                    #[trigger] minute_probe(start, k),
                ),
        ensures
            r@.map_values(|b: SessionBreak| b.ts) == range_break_times(
                |a: i64, b: i64| self.spec_has_break(a, b),
                start,
                minute_steps(start, end),
            ),
            forall|i: int|
                0 <= i < r@.len() ==> (#[trigger] r@[i]).break_type == self.spec_break_type(
                    (r@[i].ts - 60000) as i64,
                    r@[i].ts,
                ) && label_view(r@[i].label) == self.spec_break_label((r@[i].ts - 60000) as i64, r@[i].ts),
    {
        let mut breaks: Vec<SessionBreak> = Vec::new();
        let mut current = start;
        let ghost n = minute_steps(start, end);
        let ghost mut k: int = 0;
        proof {
            lemma_minute_steps(start, end, 0);
        }
        while current < end
            invariant
                end <= i64::MAX - 60000,
                n == minute_steps(start, end),
                forall|j: int| 0 <= j <= n ==> utc_representable(#[trigger] minute_probe(start, j)),
                0 <= k <= n,
                current == start + k * 60000,
                current < end <==> k < n,
                breaks@.map_values(|b: SessionBreak| b.ts) == range_break_times(
                    |a: i64, b: i64| self.spec_has_break(a, b),
                    start,
                    k as nat,
                ),
                forall|i: int|
                    0 <= i < breaks@.len() ==> (#[trigger] breaks@[i]).break_type
                        == self.spec_break_type((breaks@[i].ts - 60000) as i64, breaks@[i].ts)
                        && label_view(breaks@[i].label) == self.spec_break_label(
                        (breaks@[i].ts - 60000) as i64,
                        breaks@[i].ts,
                    ),
            decreases n - k,
        {
            proof {
                lemma_minute_steps(start, end, k);
            }
            let next = current + 60000;
            assert(current == minute_probe(start, k));
            assert(next == minute_probe(start, k + 1));
            assert(utc_representable(minute_probe(start, k)));
            assert(utc_representable(minute_probe(start, k + 1)));
            let ghost prev = breaks@.map_values(|b: SessionBreak| b.ts);
            if let Some(b) = self.session_break_between(current, next) {
                breaks.push(b);
                assert(breaks@.map_values(|b: SessionBreak| b.ts) =~= prev.push(next));
            }
            proof {
                k = k + 1;
            }
            current = next;
        }
        breaks
    }

    /// Get display name for this session provider
    fn name(&self) -> &str;
}

/// The `k`-th minute probe of a range scan from `start`.
pub open spec fn minute_probe(start: i64, k: int) -> i64 {
    (start + k * 60000) as i64
}

/// Number of one-minute steps a range scan from `start` takes before it
/// reaches `end`.
pub open spec fn minute_steps(start: i64, end: i64) -> nat {
    if end <= start {
        0
    } else {
        ((end - start + 59999) / 60000) as nat
    }
}

/// Ends of the first `n` minute steps from `start` across which `has_break` holds.
pub open spec fn range_break_times(has_break: spec_fn(i64, i64) -> bool, start: i64, n: nat) -> Seq<i64>
    decreases n,
{
    if n == 0 {
        Seq::empty()
    } else {
        let prev = range_break_times(has_break, start, (n - 1) as nat);
        if has_break(minute_probe(start, n - 1), minute_probe(start, n as int)) {
            prev.push(minute_probe(start, n as int))
        } else {
            prev
        }
    }
}

/// The `k`-th probe of a scan lies before `end` exactly when `k` is below the
/// number of steps, and the probes up to that number fit in an `i64`.
pub proof fn lemma_minute_steps(start: i64, end: i64, k: int)
    requires
        end <= i64::MAX - 60000,
        0 <= k <= minute_steps(start, end),
    ensures
        start + k * 60000 < end <==> k < minute_steps(start, end),
        i64::MIN <= start + k * 60000 <= i64::MAX,
        i64::MIN <= start + (k + 1) * 60000 <= i64::MAX || k == minute_steps(start, end),
{
    let n = minute_steps(start, end);
    if end > start {
        assert(n * 60000 >= end - start && (n - 1) * 60000 < end - start) by (nonlinear_arith)
            requires
                n == (end - start + 59999) / 60000,
                end - start > 0,
        ;
        if k < n {
            assert(start + k * 60000 < end) by (nonlinear_arith)
                requires
                    k <= n - 1,
                    (n - 1) * 60000 < end - start,
            ;
        }
        assert(k == n ==> start + k * 60000 >= end) by (nonlinear_arith)
            requires
                n * 60000 >= end - start,
        ;
        assert(start + k * 60000 <= start + n * 60000) by (nonlinear_arith)
            requires
                k <= n,
        ;
        assert(k >= 0 ==> k * 60000 >= 0) by (nonlinear_arith);
    } else {
        assert(k == 0);
    }
}

/// Daily session provider with a configurable break hour.
///
/// Detects the boundaries of trading days, each starting at the configured
/// UTC hour and minute. Use [`nyse`](Self::nyse) for a preset
/// matching NYSE regular-session close, or [`continuous`](Self::continuous)
/// for 24/7 markets (midnight UTC).
#[derive(Debug, Clone)]
pub struct DailySessionProvider {
    /// Hour of day for session break (0-23)
    pub break_hour: u32,
    /// Minute of hour for session break (0-59)
    pub break_minute: u32,
}

impl Default for DailySessionProvider {
    fn default() -> (r: Self)
        ensures
            r.break_hour == 0,
            r.break_minute == 0,
    {
        DailySessionProvider { break_hour: 0, break_minute: 0 }
    }
}

impl DailySessionProvider {
    /// Create a daily provider that breaks at the given UTC hour and minute
    /// (capped at 23:59).
    pub fn new(hour: u32, minute: u32) -> (r: Self)
        ensures
            r.break_hour == if hour <= 23 { hour } else { 23 },
            r.break_minute == if minute <= 59 { minute } else { 59 },
    {
        DailySessionProvider {
            break_hour: if hour <= 23 { hour } else { 23 },
            break_minute: if minute <= 59 { minute } else { 59 },
        }
    }

    /// Create provider for NYSE regular session (9:30 AM - 4:00 PM ET):
    /// 4:00 PM ET is 21:00 UTC during standard time.
    pub fn nyse() -> (r: Self)
        ensures
            r.break_hour == 21,
            r.break_minute == 0,
    {
        Self::new(21, 0)
    }

    /// Create provider for 24/7 markets (midnight UTC)
    pub fn continuous() -> (r: Self)
        ensures
            r.break_hour == 0,
            r.break_minute == 0,
    {
        Self::default()
    }
}

impl DailySessionProvider {
    /// How far into the UTC day the break falls, in milliseconds.
    pub open spec fn spec_break_offset(&self) -> int {
        (self.break_hour * 3600 + self.break_minute * 60) * 1000
    }
}

/// Index of the trading day that holds the instant `ms` when each trading day
/// starts `offset` milliseconds into a UTC day.
pub open spec fn session_day(ms: int, offset: int) -> int {
    (ms - offset) / 86_400_000
}

/// `a` divided by `d`, rounded down.
fn floor_div(a: i128, d: i128) -> (r: i128)
    requires
        d > 0,
        -0x1_0000_0000_0000_0000_0000 < a < 0x1_0000_0000_0000_0000_0000,
        d < 0x1_0000_0000_0000_0000,
    ensures
        r == a / d,
{
    let q = a / d;
    let m = a % d;
    proof {
        let ai = a as int;
        let di = d as int;
        if ai >= 0 {
            assert(q == ai / di);
        } else {
            assert(q == -((-ai) / di));
            assert(m == -((-ai) % di));
            assert(ai == di * q + m) by (nonlinear_arith)
                requires
                    q == -((-ai) / di),
                    m == -((-ai) % di),
                    di > 0,
                    ai < 0,
            ;
            assert(ai == di * (ai / di) + ai % di && 0 <= ai % di < di) by (nonlinear_arith)
                requires di > 0;
            assert(-di < m <= 0) by (nonlinear_arith)
                requires m == -((-ai) % di), di > 0, ai < 0;
            if m < 0 {
                assert(ai / di == q - 1) by (nonlinear_arith)
                    requires
                        ai == di * q + m,
                        -di < m < 0,
                        ai == di * (ai / di) + ai % di,
                        0 <= ai % di < di,
                ;
            } else {
                assert(ai / di == q) by (nonlinear_arith)
                    requires
                        ai == di * q,
                        ai == di * (ai / di) + ai % di,
                        0 <= ai % di < di,
                ;
            }
        }
    }
    if m < 0 {
        q - 1
    } else {
        q
    }
}

impl SessionProvider for DailySessionProvider {
    /// A daily break falls between two instants that lie in different trading
    /// days, each trading day starting at the configured UTC hour and minute.
    open spec fn spec_has_break(&self, from: i64, to: i64) -> bool {
        session_day(from as int, self.spec_break_offset()) != session_day(
            to as int,
            self.spec_break_offset(),
        )
    }

    open spec fn spec_break_type(&self, from: i64, to: i64) -> SessionBreakType {
        SessionBreakType::Daily
    }

    /// The UTC date of the later instant, as `%Y-%m-%d`.
    open spec fn spec_break_label(&self, from: i64, to: i64) -> Option<Seq<char>> {
        Some(utc_formatted(to, "%Y-%m-%d"@))
    }

    fn session_break_between(&self, from: i64, to: i64) -> (r: Option<SessionBreak>) {
        let offset: i128 = (self.break_hour as i128 * 3600 + self.break_minute as i128 * 60) * 1000;
        let from_day = floor_div(from as i128 - offset, 86_400_000);
        let to_day = floor_div(to as i128 - offset, 86_400_000);
        if from_day != to_day {
            let label = format_utc(to, "%Y-%m-%d");
            assert(self.spec_break_label(from, to) == Some(label@));
            Some(SessionBreak { ts: to, break_type: SessionBreakType::Daily, label: Some(label) })
        } else {
            None
        }
    }

    fn name(&self) -> (r: &str)
        ensures
            r@ == "Daily Sessions"@,
    {
        "Daily Sessions"
    }
}

/// Weekly session provider that detects the end of the trading week.
///
/// The week ends with the UTC day of the break weekday. Defaults to Friday
/// (typical equity-market week end). Configure with [`new`](Self::new) to use
/// a different day. Breaks are labelled with the ISO week they lead into.
#[derive(Debug, Clone)]
pub struct WeeklySessionProvider {
    /// Day of week for session break
    pub break_day: chrono::Weekday,
}

impl Default for WeeklySessionProvider {
    fn default() -> (r: Self)
        ensures
            r.break_day == chrono::Weekday::Fri,
    {
        WeeklySessionProvider { break_day: chrono::Weekday::Fri }
    }
}

impl WeeklySessionProvider {
    /// Create a weekly provider whose trading week ends with the given weekday.
    pub fn new(break_day: chrono::Weekday) -> (r: Self)
        ensures
            r.break_day == break_day,
    {
        WeeklySessionProvider { break_day }
    }
}

/// Label of a weekly break: `"Week <n>"`.
pub open spec fn week_label(week: u32) -> Seq<char> {
    "Week "@ + crate::text::decimal(week as nat)
}

impl WeeklySessionProvider {
    /// The label of a weekly break that leads into ISO week `week`.
    pub fn label_for_week(week: u32) -> (r: String)
        ensures
            r@ == week_label(week),
    {
        let mut r = "Week ".to_owned();
        let digits = string_from_chars(&u64_to_decimal(week as u64));
        push_str(&mut r, digits.as_str());
        r
    }
}

/// Days from Monday of a weekday (Monday 0, ..., Sunday 6).
pub open spec fn weekday_index(w: chrono::Weekday) -> int {
    match w {
        chrono::Weekday::Mon => 0,
        chrono::Weekday::Tue => 1,
        chrono::Weekday::Wed => 2,
        chrono::Weekday::Thu => 3,
        chrono::Weekday::Fri => 4,
        chrono::Weekday::Sat => 5,
        chrono::Weekday::Sun => 6,
    }
}

/// Index of the trading week that holds the instant `ms` when each trading
/// week starts at UTC midnight of the weekday `start` days from Monday.
/// Day 0 of the epoch, 1 January 1970, was a Thursday.
pub open spec fn session_week(ms: int, start: int) -> int {
    (ms / 86_400_000 + 3 - start) / 7
}

impl WeeklySessionProvider {
    /// The weekday a trading week starts on, in days from Monday: the day
    /// after the break day.
    pub open spec fn spec_week_start(&self) -> int {
        (weekday_index(self.break_day) + 1) % 7
    }

    fn week_start(&self) -> (r: i128)
        ensures
            r == self.spec_week_start(),
    {
        match self.break_day {
            chrono::Weekday::Mon => 1,
            chrono::Weekday::Tue => 2,
            chrono::Weekday::Wed => 3,
            chrono::Weekday::Thu => 4,
            chrono::Weekday::Fri => 5,
            chrono::Weekday::Sat => 6,
            chrono::Weekday::Sun => 0,
        }
    }
}

impl SessionProvider for WeeklySessionProvider {
    /// A weekly break falls between two instants in different trading weeks,
    /// each trading week ending with the UTC day of the break weekday.
    open spec fn spec_has_break(&self, from: i64, to: i64) -> bool {
        session_week(from as int, self.spec_week_start()) != session_week(
            to as int,
            self.spec_week_start(),
        )
    }

    open spec fn spec_break_type(&self, from: i64, to: i64) -> SessionBreakType {
        SessionBreakType::Weekly
    }

    /// `"Week <n>"` for the ISO week of the later instant.
    open spec fn spec_break_label(&self, from: i64, to: i64) -> Option<Seq<char>> {
        Some(week_label(utc_iso_week(to)))
    }

    fn session_break_between(&self, from: i64, to: i64) -> (r: Option<SessionBreak>) {
        let start = self.week_start();
        let from_day = floor_div(from as i128, 86_400_000);
        let to_day = floor_div(to as i128, 86_400_000);
        let from_week = floor_div(from_day + 3 - start, 7);
        let to_week = floor_div(to_day + 3 - start, 7);
        if from_week != to_week {
            let label = Self::label_for_week(iso_week_of(to));
            assert(self.spec_break_label(from, to) == Some(label@));
            Some(SessionBreak { ts: to, break_type: SessionBreakType::Weekly, label: Some(label) })
        } else {
            None
        }
    }

    fn name(&self) -> (r: &str)
        ensures
            r@ == "Weekly Sessions"@,
    {
        "Weekly Sessions"
    }
}

/// Monthly session provider that detects calendar-month boundaries.
#[derive(Debug, Clone)]
pub struct MonthlySessionProvider;

impl Default for MonthlySessionProvider {
    fn default() -> (r: Self)
        ensures
            r == MonthlySessionProvider,
    {
        MonthlySessionProvider
    }
}

impl SessionProvider for MonthlySessionProvider {
    /// A monthly break falls between two instants in different calendar months.
    open spec fn spec_has_break(&self, from: i64, to: i64) -> bool {
        utc_month(from) != utc_month(to) || utc_year(from) != utc_year(to)
    }

    open spec fn spec_break_type(&self, from: i64, to: i64) -> SessionBreakType {
        SessionBreakType::Monthly
    }

    /// The month and year of the later instant, as `%B %Y`.
    open spec fn spec_break_label(&self, from: i64, to: i64) -> Option<Seq<char>> {
        Some(utc_formatted(to, "%B %Y"@))
    }

    fn session_break_between(&self, from: i64, to: i64) -> (r: Option<SessionBreak>) {
        if month_of(from) != month_of(to) || year_of(from) != year_of(to) {
            let label = format_utc(to, "%B %Y");
            assert(self.spec_break_label(from, to) == Some(label@));
            Some(SessionBreak { ts: to, break_type: SessionBreakType::Monthly, label: Some(label) })
        } else {
            None
        }
    }

    fn name(&self) -> (r: &str)
        ensures
            r@ == "Monthly Sessions"@,
    {
        "Monthly Sessions"
    }
}

/// Indices `i` (from 1) such that a break falls between `times[i - 1]` and `times[i]`.
pub open spec fn break_indices<P: SessionProvider>(provider: &P, times: Seq<i64>) -> Seq<int>
    decreases times.len(),
{
    if times.len() < 2 {
        Seq::empty()
    } else {
        let n = times.len() - 1;
        let rest = break_indices(provider, times.take(n));
        if provider.spec_has_break(times[n - 1], times[n]) {
            rest.push(n)
        } else {
            rest
        }
    }
}

/// Scan a sequence of bar times for session breaks.
///
/// Returns `(bar_index, SessionBreak)` pairs indicating where each break falls,
/// in order. The `bar_index` is the index of the bar *after* the break (i.e.,
/// the first bar of the new session).
pub fn find_session_breaks<P: SessionProvider>(times: &[i64], provider: &P) -> (r: Vec<
    (usize, SessionBreak),
>)
    requires
        forall|i: int| 0 <= i < times@.len() ==> utc_representable(#[trigger] times@[i]),
    ensures
        r@.map_values(|p: (usize, SessionBreak)| p.0 as int) == break_indices(provider, times@),
        forall|k: int|
            0 <= k < r@.len() ==> {
                let i = (#[trigger] r@[k]).0 as int;
                &&& 1 <= i < times@.len()
                &&& r@[k].1.ts == times@[i]
                &&& r@[k].1.break_type == provider.spec_break_type(times@[i - 1], times@[i])
                &&& label_view(r@[k].1.label) == provider.spec_break_label(times@[i - 1], times@[i])
            },
{
    let mut breaks: Vec<(usize, SessionBreak)> = Vec::new();
    if times.len() < 2 {
        return breaks;
    }
    let mut i: usize = 1;
    while i < times.len()
        invariant
            1 <= i <= times@.len(),
            forall|j: int| 0 <= j < times@.len() ==> utc_representable(#[trigger] times@[j]),
            breaks@.map_values(|p: (usize, SessionBreak)| p.0 as int) == break_indices(
                provider,
                times@.take(i as int),
            ),
            forall|k: int|
                0 <= k < breaks@.len() ==> {
                    let j = (#[trigger] breaks@[k]).0 as int;
                    &&& 1 <= j < i
                    &&& breaks@[k].1.ts == times@[j]
                    &&& breaks@[k].1.break_type == provider.spec_break_type(times@[j - 1], times@[j])
                    &&& label_view(breaks@[k].1.label) == provider.spec_break_label(
                        times@[j - 1],
                        times@[j],
                    )
                },
        decreases times@.len() - i,
    {
        let ghost prev = breaks@.map_values(|p: (usize, SessionBreak)| p.0 as int);
        let found = provider.session_break_between(times[i - 1], times[i]);
        match found {
            Some(b) => {
                breaks.push((i, b));
                assert(breaks@.map_values(|p: (usize, SessionBreak)| p.0 as int) =~= prev.push(
                    i as int,
                ));
            },
            None => {},
        }
        proof {
            let t = times@.take(i + 1);
            assert(t.take(i as int) =~= times@.take(i as int));
            assert(t[i - 1] == times@[i - 1] && t[i as int] == times@[i as int]);
        }
        i = i + 1;
    }
    assert(times@.take(times@.len() as int) =~= times@);
    breaks
}

/// Checks that every time lies in chrono's supported range, then scans the
/// times for session breaks as [`find_session_breaks`] does; `None` when some
/// time is out of range.
pub fn find_session_breaks_checked<P: SessionProvider>(times: &[i64], provider: &P) -> (r: Option<
    Vec<(usize, SessionBreak)>,
>)
    ensures
        r is Some <==> forall|i: int| 0 <= i < times@.len() ==> utc_representable(#[trigger] times@[i]),
        r matches Some(v) ==> v@.map_values(|p: (usize, SessionBreak)| p.0 as int) == break_indices(
            provider,
            times@,
        ),
        r matches Some(v) ==> forall|k: int|
            0 <= k < v@.len() ==> {
                let i = (#[trigger] v@[k]).0 as int;
                &&& 1 <= i < times@.len()
                &&& v@[k].1.ts == times@[i]
                &&& v@[k].1.break_type == provider.spec_break_type(times@[i - 1], times@[i])
                &&& label_view(v@[k].1.label) == provider.spec_break_label(times@[i - 1], times@[i])
            },
{
    let mut i: usize = 0;
    while i < times.len()
        invariant
            i <= times@.len(),
            forall|j: int| 0 <= j < i ==> utc_representable(#[trigger] times@[j]),
        decreases times@.len() - i,
    {
        if !is_representable(times[i]) {
            return None;
        }
        i = i + 1;
    }
    Some(find_session_breaks(times, provider))
}


/// Checks that every minute probe of the range lies in chrono's supported
/// range, then scans the range as [`SessionProvider::session_breaks_in_range`]
/// does; `None` when some probe is out of range or the range ends too close to
/// the largest instant.
pub fn session_breaks_in_range_checked<P: SessionProvider>(provider: &P, start: i64, end: i64) -> (r:
    Option<Vec<SessionBreak>>)
    ensures
        r is Some <==> (end <= i64::MAX - 60000 && forall|k: int|
            0 <= k <= minute_steps(start, end) ==> utc_representable(
                #[trigger] minute_probe(start, k),
            )),
        r matches Some(v) ==> v@.map_values(|b: SessionBreak| b.ts) == range_break_times(
            |a: i64, b: i64| provider.spec_has_break(a, b),
            start,
            minute_steps(start, end),
        ),
        r matches Some(v) ==> forall|i: int|
            0 <= i < v@.len() ==> (#[trigger] v@[i]).break_type == provider.spec_break_type(
                (v@[i].ts - 60000) as i64,
                v@[i].ts,
            ) && label_view(v@[i].label) == provider.spec_break_label((v@[i].ts - 60000) as i64, v@[i].ts),
{
    if end > i64::MAX - 60000 {
        return None;
    }
    let ghost n = minute_steps(start, end);
    let mut current = start;
    let ghost mut k: int = 0;
    proof {
        lemma_minute_steps(start, end, 0);
    }
    loop
        invariant
            end <= i64::MAX - 60000,
            n == minute_steps(start, end),
            0 <= k <= n,
            current == start + k * 60000,
            current < end <==> k < n,
            forall|j: int| 0 <= j < k ==> utc_representable(#[trigger] minute_probe(start, j)),
        ensures
            forall|j: int| 0 <= j <= n ==> utc_representable(#[trigger] minute_probe(start, j)),
        decreases n - k,
    {
        assert(current == minute_probe(start, k));
        if !is_representable(current) {
            return None;
        }
        if current >= end {
            break;
        }
        proof {
            lemma_minute_steps(start, end, k);
            k = k + 1;
            lemma_minute_steps(start, end, k);
        }
        current = current + 60000;
    }
    Some(provider.session_breaks_in_range(start, end))
}

/// Whether `i` is the first of the composite's providers that reports a break
/// between the two instants.
pub open spec fn first_reporting(c: &CompositeSessionProvider, from: i64, to: i64, i: int) -> bool {
    &&& 0 <= i < c.provider_count()
    &&& c.provider_has_break(i, from, to)
    &&& forall|j: int| 0 <= j < i ==> !#[trigger] c.provider_has_break(j, from, to)
}

/// The daily provider of the standard composite: breaks at midnight UTC.
pub open spec fn standard_daily() -> DailySessionProvider {
    DailySessionProvider { break_hour: 0, break_minute: 0 }
}

/// The weekly provider of the standard composite: weeks end with Friday.
pub open spec fn standard_weekly() -> WeeklySessionProvider {
    WeeklySessionProvider { break_day: chrono::Weekday::Fri }
}

proof fn lemma_push_slot(v: Seq<ProviderSlot<Box<dyn SessionProvider>>>, slot: ProviderSlot<Box<dyn SessionProvider>>)
    ensures
        v.push(slot).len() == v.len() + 1,
        v.push(slot)[v.len() as int] == slot,
        forall|i: int| 0 <= i < v.len() ==> v.push(slot)[i] == v[i],
{
}

/// One provider of a composite. (The provider's type is a parameter so that
/// Verus keeps track of the boxed trait object stored in it.)
struct ProviderSlot<P> {
    provider: P,
}

/// Composite session provider that combines multiple providers.
///
/// When checking for a break, the first provider that reports one wins
/// (short-circuit). Use [`standard`](Self::standard) for the common
/// daily + weekly + monthly combination.
pub struct CompositeSessionProvider {
    providers: Vec<ProviderSlot<Box<dyn SessionProvider>>>,
}

impl CompositeSessionProvider {
    /// Number of providers.
    pub closed spec fn provider_count(&self) -> nat {
        self.providers@.len()
    }

    /// Whether the `i`-th provider (in the order they are consulted) reports a
    /// break between the two instants.
    pub closed spec fn provider_has_break(&self, i: int, from: i64, to: i64) -> bool {
        self.providers@[i].provider.spec_has_break(from, to)
    }

    /// The kind of break the `i`-th provider reports between the two instants.
    pub closed spec fn provider_break_type(&self, i: int, from: i64, to: i64) -> SessionBreakType {
        self.providers@[i].provider.spec_break_type(from, to)
    }

    /// The label of the break the `i`-th provider reports between the two instants.
    pub closed spec fn provider_break_label(&self, i: int, from: i64, to: i64) -> Option<Seq<char>> {
        self.providers@[i].provider.spec_break_label(from, to)
    }

    /// The `i`-th provider behaves as `p` does on every pair of instants.
    pub open spec fn provider_is<P: SessionProvider>(&self, i: int, p: P) -> bool {
        forall|a: i64, b: i64|
            #![trigger self.provider_has_break(i, a, b)]
            #![trigger self.provider_break_type(i, a, b)]
            #![trigger self.provider_break_label(i, a, b)]
            self.provider_has_break(i, a, b) == p.spec_has_break(a, b) && self.provider_break_type(
                i,
                a,
                b,
            ) == p.spec_break_type(a, b) && self.provider_break_label(i, a, b) == p.spec_break_label(
                a,
                b,
            )
    }

    /// Create an empty composite (no providers yet).
    pub fn new() -> (r: Self)
        ensures
            r.provider_count() == 0,
    {
        CompositeSessionProvider { providers: Vec::new() }
    }

    /// Add a session provider to the composite; it is consulted after those
    /// added before it. The providers added before keep their places.
    pub fn add_provider(&mut self, provider: Box<dyn SessionProvider>)
        ensures
            final(self).provider_count() == old(self).provider_count() + 1,
            forall|i: int, a: i64, b: i64|
                0 <= i < old(self).provider_count() ==> (final(self).provider_has_break(i, a, b)
                    == old(self).provider_has_break(i, a, b) && final(self).provider_break_type(i, a, b)
                    == old(self).provider_break_type(i, a, b) && final(self).provider_break_label(
                    i,
                    a,
                    b,
                ) == old(self).provider_break_label(i, a, b)),
            forall|a: i64, b: i64|
                #![trigger final(self).provider_has_break(old(self).provider_count() as int, a, b)]
                #![trigger final(self).provider_break_type(old(self).provider_count() as int, a, b)]
                #![trigger final(self).provider_break_label(old(self).provider_count() as int, a, b)]
                final(self).provider_has_break(old(self).provider_count() as int, a, b)
                    == provider.spec_has_break(a, b) && final(self).provider_break_type(
                    old(self).provider_count() as int,
                    a,
                    b,
                ) == provider.spec_break_type(a, b) && final(self).provider_break_label(
                    old(self).provider_count() as int,
                    a,
                    b,
                ) == provider.spec_break_label(a, b),
    {
        let ghost v0 = self.providers@;
        let ghost p = provider;
        let slot = ProviderSlot { provider };
        let ghost gs = slot;
        self.providers.push(slot);
        proof {
            lemma_push_slot(v0, gs);
            assert(self.providers@ == v0.push(gs));
            assert(gs.provider == p);
        }
    }

    /// Create standard provider with daily, weekly, and monthly breaks, consulted
    /// in that order.
    pub fn standard() -> (r: Self)
        ensures
            r.provider_count() == 3,
            r.provider_is(0, standard_daily()),
            r.provider_is(1, standard_weekly()),
            r.provider_is(2, MonthlySessionProvider),
    {
        let d: ProviderSlot<Box<dyn SessionProvider>> = ProviderSlot { provider: Box::new(DailySessionProvider::default()) };
        let w: ProviderSlot<Box<dyn SessionProvider>> = ProviderSlot { provider: Box::new(WeeklySessionProvider::default()) };
        let m: ProviderSlot<Box<dyn SessionProvider>> = ProviderSlot { provider: Box::new(MonthlySessionProvider) };
        let ghost gd = d;
        let ghost gw = w;
        let ghost gm = m;
        let providers = vec![d, w, m];
        let r = CompositeSessionProvider { providers };
        proof {
            assert(r.providers@ =~= seq![gd, gw, gm]);
            assert(r.providers@[0] == gd);
            assert(r.providers@[1] == gw);
            assert(r.providers@[2] == gm);
        }
        r
    }
}

impl Default for CompositeSessionProvider {
    fn default() -> (r: Self)
        ensures
            r.provider_count() == 0,
    {
        Self::new()
    }
}

impl SessionProvider for CompositeSessionProvider {
    /// A break falls between two instants when one of the providers reports one.
    open spec fn spec_has_break(&self, from: i64, to: i64) -> bool {
        exists|i: int| first_reporting(self, from, to, i)
    }

    /// The kind of break reported by the first provider that reports one.
    open spec fn spec_break_type(&self, from: i64, to: i64) -> SessionBreakType {
        self.provider_break_type(choose|i: int| first_reporting(self, from, to, i), from, to)
    }

    /// The label of the break reported by the first provider that reports one.
    open spec fn spec_break_label(&self, from: i64, to: i64) -> Option<Seq<char>> {
        self.provider_break_label(choose|i: int| first_reporting(self, from, to, i), from, to)
    }

    fn session_break_between(&self, from: i64, to: i64) -> (r: Option<SessionBreak>) {
        let mut i: usize = 0;
        while i < self.providers.len()
            invariant
                i <= self.provider_count(),
                self.provider_count() == self.providers@.len(),
                utc_representable(from),
                utc_representable(to),
                forall|j: int| 0 <= j < i ==> !#[trigger] self.provider_has_break(j, from, to),
            decreases self.providers@.len() - i,
        {
            let b = self.providers[i].provider.session_break_between(from, to);
            if b.is_some() {
                proof {
                    assert(first_reporting(self, from, to, i as int));
                    let c = choose|c: int| first_reporting(self, from, to, c);
                    assert(c == i) by {
                        if c < i {
                            assert(!self.provider_has_break(c, from, to));
                        } else if c > i {
                            assert(!self.provider_has_break(i as int, from, to));
                        }
                    }
                }
                return b;
            }
            i = i + 1;
        }
        proof {
            if exists|c: int| first_reporting(self, from, to, c) {
                let c = choose|c: int| first_reporting(self, from, to, c);
                assert(!self.provider_has_break(c, from, to));
            }
        }
        None
    }

    fn name(&self) -> (r: &str)
        ensures
            r@ == "Composite Sessions"@,
    {
        "Composite Sessions"
    }
}

} // verus!

//! Time-axis tick mark kinds and weights.
//!
//! Time labels are placed at hierarchical boundaries (year > month > week >
//! day > hour > minute > second), and each gets a [`TickMarkWeight`].  When the
//! chart is too narrow to show every mark, lower-weight marks are dropped
//! first, so that the most significant boundaries always remain visible.
use crate::model::session::{
    date_at, day_of, hour_of, is_representable, minute_of, month_of, second_of, utc_day,
    utc_formatted, utc_month, utc_representable, utc_seconds_of_day, utc_weekday_from_monday,
    weekday_from_monday_of,
};
use crate::scales::time_formatter::TimeFormatterKind;
use vstd::prelude::*;

verus! {

/// Type of tick mark on the time scale
#[derive(Debug, Clone, Copy, PartialEq, Eq, Hash, Structural)]
pub enum TickMarkType {
    /// Year mark (e.g., "2024")
    Year,
    /// Month mark (e.g., "Jan", "Feb")
    Month,
    /// Day of month mark (e.g., "15", "20")
    DayOfMonth,
    /// Time mark without seconds (e.g., "12:30")
    Time,
    /// Time mark with seconds (e.g., "12:30:45")
    TimeWithSeconds,
}

/// Weight of a tick mark (0-100 scale).
///
/// The standard weights, from [`year`](TickMarkWeight::year) down to
/// [`subsecond`](TickMarkWeight::subsecond), decrease with the length of the
/// boundary they mark.
/// Higher weight = more important mark = displayed at lower zoom levels.
#[derive(Debug, Clone, Copy, PartialEq, Eq, PartialOrd, Ord, Hash, Structural)]
pub struct TickMarkWeight(u8);

impl TickMarkWeight {
    /// The raw weight, in `0..=100`.
    pub closed spec fn spec_value(self) -> u8 {
        self.0
    }

    #[verifier::type_invariant]
    closed spec fn in_range(self) -> bool {
        self.0 <= 100
    }

    /// Create a new tick mark weight (0-100); larger values are capped at 100.
    pub fn new(weight: u8) -> (r: Self)
        ensures
            r.spec_value() == if weight <= 100 { weight } else { 100 },
    {
        if weight <= 100 {
            TickMarkWeight(weight)
        } else {
            TickMarkWeight(100)
        }
    }

    /// Get the raw weight value
    pub fn value(&self) -> (r: u8)
        ensures
            r == self.spec_value(),
            r <= 100,
    {
        proof {
            use_type_invariant(self);
        }
        self.0
    }

    /// Weight for year boundaries
    pub fn year() -> (r: TickMarkWeight)
        ensures
            r.spec_value() == 100,
    {
        TickMarkWeight(100)
    }

    /// Weight for month boundaries
    pub fn month() -> (r: TickMarkWeight)
        ensures
            r.spec_value() == 80,
    {
        TickMarkWeight(80)
    }

    /// Weight for week boundaries
    pub fn week() -> (r: TickMarkWeight)
        ensures
            r.spec_value() == 70,
    {
        TickMarkWeight(70)
    }

    /// Weight for day boundaries
    pub fn day() -> (r: TickMarkWeight)
        ensures
            r.spec_value() == 60,
    {
        TickMarkWeight(60)
    }

    /// Weight for 4-hour marks
    pub fn hour_4() -> (r: TickMarkWeight)
        ensures
            r.spec_value() == 50,
    {
        TickMarkWeight(50)
    }

    /// Weight for hour boundaries
    pub fn hour() -> (r: TickMarkWeight)
        ensures
            r.spec_value() == 40,
    {
        TickMarkWeight(40)
    }

    /// Weight for 30-minute marks
    pub fn min_30() -> (r: TickMarkWeight)
        ensures
            r.spec_value() == 35,
    {
        TickMarkWeight(35)
    }

    /// Weight for 15-minute marks
    pub fn min_15() -> (r: TickMarkWeight)
        ensures
            r.spec_value() == 30,
    {
        TickMarkWeight(30)
    }

    /// Weight for 5-minute marks
    pub fn min_5() -> (r: TickMarkWeight)
        ensures
            r.spec_value() == 25,
    {
        TickMarkWeight(25)
    }

    /// Weight for minute boundaries
    pub fn minute() -> (r: TickMarkWeight)
        ensures
            r.spec_value() == 20,
    {
        TickMarkWeight(20)
    }

    /// Weight for 10-second marks
    pub fn sec_10() -> (r: TickMarkWeight)
        ensures
            r.spec_value() == 15,
    {
        TickMarkWeight(15)
    }

    /// Weight for second boundaries
    pub fn second() -> (r: TickMarkWeight)
        ensures
            r.spec_value() == 10,
    {
        TickMarkWeight(10)
    }

    /// Weight for sub-second marks
    pub fn subsecond() -> (r: TickMarkWeight)
        ensures
            r.spec_value() == 5,
    {
        TickMarkWeight(5)
    }
}


/// Whether a mark type is day-level or coarser.
pub open spec fn is_day_or_higher(t: TickMarkType) -> bool {
    t == TickMarkType::Year || t == TickMarkType::Month || t == TickMarkType::DayOfMonth
}

/// Mark type and weight for a boundary with the given calendar fields
/// (`weekday` counts days from Monday). Midnight boundaries are classed by
/// year, month, week and day; for a day-level primary type any other instant is
/// a day mark; otherwise the time of day decides, from 4-hour marks down to
/// seconds.
pub open spec fn boundary_class(
    month: int,
    day: int,
    hour: int,
    minute: int,
    second: int,
    weekday: int,
    primary: TickMarkType,
) -> (TickMarkType, int) {
    let midnight = hour == 0 && minute == 0 && second == 0;
    if month == 1 && day == 1 && midnight {
        (TickMarkType::Year, 100)
    } else if day == 1 && midnight {
        (TickMarkType::Month, 80)
    } else if weekday == 0 && midnight {
        (TickMarkType::DayOfMonth, 70)
    } else if midnight {
        (TickMarkType::DayOfMonth, 60)
    } else if is_day_or_higher(primary) {
        (TickMarkType::DayOfMonth, 60)
    } else if hour % 4 == 0 && minute == 0 && second == 0 {
        (TickMarkType::Time, 50)
    } else if minute == 0 && second == 0 {
        (TickMarkType::Time, 40)
    } else if minute % 30 == 0 && second == 0 {
        (TickMarkType::Time, 35)
    } else if minute % 15 == 0 && second == 0 {
        (TickMarkType::Time, 30)
    } else if minute % 5 == 0 && second == 0 {
        (TickMarkType::Time, 25)
    } else if second == 0 {
        (TickMarkType::Time, 20)
    } else if second % 10 == 0 {
        (TickMarkType::TimeWithSeconds, 15)
    } else {
        (primary, 10)
    }
}

/// Classify a boundary from its calendar fields and assign a weight.
///
/// Respects the primary type's hierarchy: day-level marks are never downgraded
/// to time-of-day marks.
pub fn classify_calendar_boundary(
    month: u32,
    day: u32,
    hour: u32,
    minute: u32,
    second: u32,
    weekday_from_monday: u32,
    primary_type: TickMarkType,
) -> (r: (TickMarkType, TickMarkWeight))
    ensures
        (r.0, r.1.spec_value() as int) == boundary_class(
            month as int,
            day as int,
            hour as int,
            minute as int,
            second as int,
            weekday_from_monday as int,
            primary_type,
        ),
        is_day_or_higher(primary_type) ==> is_day_or_higher(r.0),
        month == 1 && day == 1 && hour == 0 && minute == 0 && second == 0 ==> r.0
            == TickMarkType::Year && r.1.spec_value() == 100,
{
    let midnight = hour == 0 && minute == 0 && second == 0;
    if month == 1 && day == 1 && midnight {
        return (TickMarkType::Year, TickMarkWeight::year());
    }
    if day == 1 && midnight {
        return (TickMarkType::Month, TickMarkWeight::month());
    }
    if weekday_from_monday == 0 && midnight {
        return (TickMarkType::DayOfMonth, TickMarkWeight::week());
    }
    if midnight {
        return (TickMarkType::DayOfMonth, TickMarkWeight::day());
    }
    let day_or_higher = match primary_type {
        TickMarkType::Year | TickMarkType::Month | TickMarkType::DayOfMonth => true,
        _ => false,
    };
    if day_or_higher {
        return (TickMarkType::DayOfMonth, TickMarkWeight::day());
    }
    if hour % 4 == 0 && minute == 0 && second == 0 {
        return (TickMarkType::Time, TickMarkWeight::hour_4());
    }
    if minute == 0 && second == 0 {
        return (TickMarkType::Time, TickMarkWeight::hour());
    }
    if minute % 30 == 0 && second == 0 {
        return (TickMarkType::Time, TickMarkWeight::min_30());
    }
    if minute % 15 == 0 && second == 0 {
        return (TickMarkType::Time, TickMarkWeight::min_15());
    }
    if minute % 5 == 0 && second == 0 {
        return (TickMarkType::Time, TickMarkWeight::min_5());
    }
    if second == 0 {
        return (TickMarkType::Time, TickMarkWeight::minute());
    }
    if second % 10 == 0 {
        return (TickMarkType::TimeWithSeconds, TickMarkWeight::sec_10());
    }
    (primary_type, TickMarkWeight::second())
}

/// Mark type and weight of the UTC instant `ms` (milliseconds since the epoch)
/// as a time-axis boundary.
pub open spec fn time_boundary_class(ms: i64, primary: TickMarkType) -> (TickMarkType, int) {
    let s = utc_seconds_of_day(ms);
    boundary_class(
        utc_month(ms) as int,
        utc_day(ms) as int,
        s / 3600,
        (s / 60) % 60,
        s % 60,
        utc_weekday_from_monday(ms) as int,
        primary,
    )
}

/// Classify the UTC instant `ms` (milliseconds since the epoch) as a time-axis
/// boundary and assign a weight; see [`classify_calendar_boundary`].
pub fn classify_time_boundary(ms: i64, primary_type: TickMarkType) -> (r: (TickMarkType, TickMarkWeight))
    requires
        utc_representable(ms),
    ensures
        (r.0, r.1.spec_value() as int) == time_boundary_class(ms, primary_type),
{
    let month = month_of(ms);
    let day = day_of(ms);
    let hour = hour_of(ms);
    let minute = minute_of(ms);
    let second = second_of(ms);
    let weekday = weekday_from_monday_of(ms);
    classify_calendar_boundary(month, day, hour, minute, second, weekday, primary_type)
}

/// Classifies the instant as [`classify_time_boundary`] does when it lies in
/// chrono's supported range; `None` otherwise.
pub fn classify_time_boundary_checked(ms: i64, primary_type: TickMarkType) -> (r: Option<
    (TickMarkType, TickMarkWeight),
>)
    ensures
        r is Some <==> utc_representable(ms),
        r matches Some(c) ==> (c.0, c.1.spec_value() as int) == time_boundary_class(ms, primary_type),
{
    if is_representable(ms) {
        Some(classify_time_boundary(ms, primary_type))
    } else {
        None
    }
}

/// Mark type and minimum weight for marks spaced `seconds` apart.
pub open spec fn interval_class(seconds: int) -> (TickMarkType, int) {
    if seconds < 1 {
        (TickMarkType::TimeWithSeconds, 5)
    } else if seconds < 60 {
        (TickMarkType::TimeWithSeconds, 10)
    } else if seconds < 3600 {
        (TickMarkType::Time, 20)
    } else if seconds < 86400 {
        (TickMarkType::Time, 40)
    } else if seconds < 2592000 {
        (TickMarkType::DayOfMonth, 60)
    } else if seconds < 31536000 {
        (TickMarkType::Month, 80)
    } else {
        (TickMarkType::Year, 100)
    }
}

/// Determine mark type and min weight threshold based on the interval between
/// marks, in whole seconds.
pub fn determine_mark_type_and_weight(interval_seconds: i64) -> (r: (TickMarkType, TickMarkWeight))
    ensures
        (r.0, r.1.spec_value() as int) == interval_class(interval_seconds as int),
{
    if interval_seconds < 1 {
        (TickMarkType::TimeWithSeconds, TickMarkWeight::subsecond())
    } else if interval_seconds < 60 {
        (TickMarkType::TimeWithSeconds, TickMarkWeight::second())
    } else if interval_seconds < 3600 {
        (TickMarkType::Time, TickMarkWeight::minute())
    } else if interval_seconds < 86400 {
        (TickMarkType::Time, TickMarkWeight::hour())
    } else if interval_seconds < 2592000 {
        (TickMarkType::DayOfMonth, TickMarkWeight::day())
    } else if interval_seconds < 31536000 {
        (TickMarkType::Month, TickMarkWeight::month())
    } else {
        (TickMarkType::Year, TickMarkWeight::year())
    }
}

/// Wider spacing between marks never lowers the weight threshold.
pub proof fn interval_weight_monotone(a: int, b: int)
    requires
        a <= b,
    ensures
        interval_class(a).1 <= interval_class(b).1,
{
}

/// A midnight boundary outranks every mark that is not at midnight, whatever
/// the primary type.
pub proof fn midnight_outranks_time_of_day(
    month: int,
    day: int,
    weekday: int,
    hour: int,
    minute: int,
    second: int,
    primary: TickMarkType,
    primary2: TickMarkType,
    month2: int,
    day2: int,
    weekday2: int,
)
    requires
        !(hour == 0 && minute == 0 && second == 0),
    ensures
        boundary_class(month, day, hour, minute, second, weekday, primary).1 <= boundary_class(
            month2,
            day2,
            0,
            0,
            0,
            weekday2,
            primary2,
        ).1,
{
}


/// A single tick mark on the time axis
#[derive(Debug, Clone)]
pub struct TickMark {
    /// Time of this tick mark (UTC milliseconds since the epoch)
    pub time: i64,
    /// Type of tick mark
    pub mark_type: TickMarkType,
    /// Weight of this mark (importance)
    pub weight: TickMarkWeight,
    /// Formatted label text
    pub label: String,
    /// Index in the data series
    pub index: usize,
}

impl TickMark {
    /// A field-by-field copy.
    fn duplicate(&self) -> (r: TickMark)
        ensures
            r == *self,
    {
        TickMark {
            time: self.time,
            mark_type: self.mark_type,
            weight: self.weight,
            label: self.label.clone(),
            index: self.index,
        }
    }
}

/// Whether mark `j` ranks before mark `i` when marks are kept by importance:
/// heavier first, then earlier, then in the order given.
pub open spec fn ranks_before(m: Seq<TickMark>, j: int, i: int) -> bool {
    let wj = m[j].weight.spec_value();
    let wi = m[i].weight.spec_value();
    wj > wi || (wj == wi && (m[j].time < m[i].time || (m[j].time == m[i].time && j < i)))
}

/// Whether `r` is `m` reduced to its `max` best-ranked marks (the positions
/// `sel` in `m`), in time order, ties in rank order.
pub open spec fn reduced_to(m: Seq<TickMark>, max: int, r: Seq<TickMark>, sel: Seq<int>) -> bool {
    &&& sel.len() == max && r.len() == max
    &&& forall|p: int| 0 <= p < max ==> 0 <= #[trigger] sel[p] < m.len() && r[p] == m[sel[p]]
    &&& forall|p: int, q: int| 0 <= p < q < max ==> sel[p] != sel[q]
    &&& forall|p: int, j: int|
        #![trigger sel[p], sel.contains(j)]
        0 <= p < max && 0 <= j < m.len() && !sel.contains(j) ==> ranks_before(m, sel[p], j)
    &&& forall|p: int, q: int|
        0 <= p < q < max ==> m[#[trigger] sel[p]].time < m[#[trigger] sel[q]].time || (m[sel[p]].time
            == m[sel[q]].time && ranks_before(m, sel[p], sel[q]))
}

/// Number of set flags.
pub open spec fn count_true(s: Seq<bool>) -> nat
    decreases s.len(),
{
    if s.len() == 0 {
        0
    } else {
        count_true(s.drop_last()) + if s.last() { 1nat } else { 0nat }
    }
}

proof fn lemma_count_true_bound(s: Seq<bool>)
    ensures
        count_true(s) <= s.len(),
        count_true(s) < s.len() ==> exists|i: int| 0 <= i < s.len() && !s[i],
        count_true(s) == s.len() ==> forall|i: int| 0 <= i < s.len() ==> s[i],
    decreases s.len(),
{
    if s.len() > 0 {
        lemma_count_true_bound(s.drop_last());
        if count_true(s) < s.len() && s.last() {
            let i = choose|i: int| 0 <= i < s.drop_last().len() && !s.drop_last()[i];
            assert(!s[i]);
        }
        if !s.last() {
            assert(!s[s.len() - 1]);
        }
        if count_true(s) == s.len() {
            assert forall|i: int| 0 <= i < s.len() implies s[i] by {
                if i < s.len() - 1 {
                    assert(s.drop_last()[i] == s[i]);
                }
            }
        }
    }
}

proof fn lemma_count_true_set(s: Seq<bool>, i: int)
    requires
        0 <= i < s.len(),
        !s[i],
    ensures
        count_true(s.update(i, true)) == count_true(s) + 1,
    decreases s.len(),
{
    if i < s.len() - 1 {
        lemma_count_true_set(s.drop_last(), i);
        assert(s.update(i, true).drop_last() =~= s.drop_last().update(i, true));
    } else {
        assert(s.update(i, true).drop_last() =~= s.drop_last());
    }
}

/// `n` unset flags.
fn unset_flags(n: usize) -> (r: Vec<bool>)
    ensures
        r@.len() == n,
        forall|i: int| 0 <= i < n ==> !#[trigger] r@[i],
        count_true(r@) == 0,
{
    let mut r: Vec<bool> = Vec::new();
    let mut i: usize = 0;
    while i < n
        invariant
            i <= n,
            r@.len() == i,
            forall|j: int| 0 <= j < i ==> !#[trigger] r@[j],
            count_true(r@) == 0,
        decreases n - i,
    {
        let ghost before = r@;
        r.push(false);
        assert(r@.drop_last() =~= before);
        i = i + 1;
    }
    r
}

/// Whether mark `a` (at position `ia`) ranks before mark `b` (at position `ib`).
fn ranks_ahead(a: &TickMark, ia: usize, b: &TickMark, ib: usize) -> (r: bool)
    ensures
        r == (a.weight.spec_value() > b.weight.spec_value() || (a.weight.spec_value()
            == b.weight.spec_value() && (a.time < b.time || (a.time == b.time && ia < ib)))),
{
    let wa = a.weight.value();
    let wb = b.weight.value();
    wa > wb || (wa == wb && (a.time < b.time || (a.time == b.time && ia < ib)))
}

/// Reduce marks to at most `max_marks`: keep the highest-weight marks (the
/// earlier ones among equal weights) and return them in time order.
pub fn reduce_marks_cnt(marks: Vec<TickMark>, max_marks: usize) -> (r: Vec<TickMark>)
    ensures
        marks@.len() <= max_marks ==> r@ == marks@,
        marks@.len() > max_marks ==> exists|sel: Seq<int>|
            reduced_to(marks@, max_marks as int, r@, sel),
{
    let n = marks.len();
    if n <= max_marks {
        return marks;
    }
    let ghost m = marks@;
    // The best-ranked marks, best first.
    let mut taken = unset_flags(n);
    let mut chosen: Vec<usize> = Vec::new();
    while chosen.len() < max_marks
        invariant
            n == marks@.len(),
            m == marks@,
            max_marks < n,
            chosen@.len() <= max_marks,
            taken@.len() == n,
            count_true(taken@) == chosen@.len(),
            forall|p: int| 0 <= p < chosen@.len() ==> (#[trigger] chosen@[p] as int) < n,
            forall|p: int| 0 <= p < chosen@.len() ==> taken@[#[trigger] chosen@[p] as int],
            forall|i: int| 0 <= i < n && taken@[i] ==> chosen@.contains(i as usize),
            forall|p: int, q: int| 0 <= p < q < chosen@.len() ==> chosen@[p] != chosen@[q],
            forall|p: int, q: int|
                0 <= p < q < chosen@.len() ==> ranks_before(
                    m,
                    #[trigger] chosen@[p] as int,
                    #[trigger] chosen@[q] as int,
                ),
            forall|p: int, j: int|
                #![trigger chosen@[p], taken@[j]]
                0 <= p < chosen@.len() && 0 <= j < n && !taken@[j] ==> ranks_before(
                    m,
                    chosen@[p] as int,
                    j,
                ),
        decreases max_marks - chosen@.len(),
    {
        proof {
            lemma_count_true_bound(taken@);
        }
        let mut best: usize = n;
        let mut i: usize = 0;
        while i < n
            invariant
                n == marks@.len(),
                m == marks@,
                taken@.len() == n,
                i <= n,
                best == n || (best < i && !taken@[best as int]),
                best < n ==> forall|j: int|
                    0 <= j < i && !taken@[j] && j != best ==> ranks_before(m, best as int, j),
                best == n ==> forall|j: int| 0 <= j < i ==> taken@[j],
            decreases n - i,
        {
            if !taken[i] {
                if best == n || ranks_ahead(&marks[i], i, &marks[best], best) {
                    best = i;
                }
            }
            i = i + 1;
        }
        proof {
            if best == n {
                let j = choose|j: int| 0 <= j < taken@.len() && !taken@[j];
                assert(taken@[j]);
            }
        }
        let ghost old_taken = taken@;
        let ghost old_chosen = chosen@;
        proof {
            lemma_count_true_set(taken@, best as int);
        }
        taken.set(best, true);
        chosen.push(best);
        assert(chosen@[old_chosen.len() as int] == best);
        assert forall|i: int| 0 <= i < n && taken@[i] implies chosen@.contains(i as usize) by {
            if i != best {
                assert(old_taken[i]);
                assert(old_chosen.contains(i as usize));
                let p = choose|p: int| 0 <= p < old_chosen.len() && old_chosen[p] == i as usize;
                assert(chosen@[p] == i as usize);
            } else {
                assert(chosen@[old_chosen.len() as int] == i as usize);
            }
        }
    }
    // The chosen marks in time order, ties in rank order (positions in `chosen`).
    let k = max_marks;
    let mut done = unset_flags(k);
    let mut order: Vec<usize> = Vec::new();
    while order.len() < k
        invariant
            n == marks@.len(),
            m == marks@,
            chosen@.len() == k,
            k == max_marks,
            k < n,
            done@.len() == k,
            order@.len() <= k,
            count_true(done@) == order@.len(),
            forall|x: int| 0 <= x < order@.len() ==> (#[trigger] order@[x] as int) < k,
            forall|x: int| 0 <= x < order@.len() ==> done@[#[trigger] order@[x] as int],
            forall|p: int| 0 <= p < k && done@[p] ==> order@.contains(p as usize),
            forall|x: int, y: int| 0 <= x < y < order@.len() ==> order@[x] != order@[y],
            forall|x: int, y: int|
                #![trigger order@[x], order@[y]]
                0 <= x < y < order@.len() ==> m[chosen@[order@[x] as int] as int].time
                    < m[chosen@[order@[y] as int] as int].time || (m[chosen@[order@[x] as int] as int].time
                    == m[chosen@[order@[y] as int] as int].time && order@[x] < order@[y]),
            forall|x: int, p: int|
                #![trigger order@[x], done@[p]]
                0 <= x < order@.len() && 0 <= p < k && !done@[p] ==> m[chosen@[order@[x] as int] as int].time
                    < m[chosen@[p] as int].time || (m[chosen@[order@[x] as int] as int].time
                    == m[chosen@[p] as int].time && order@[x] < p),
            forall|p: int| 0 <= p < chosen@.len() ==> (#[trigger] chosen@[p] as int) < n,
        decreases k - order@.len(),
    {
        proof {
            lemma_count_true_bound(done@);
        }
        let mut first: usize = k;
        let mut p: usize = 0;
        while p < k
            invariant
                n == marks@.len(),
                m == marks@,
                chosen@.len() == k,
                k < n,
                done@.len() == k,
                p <= k,
                forall|q: int| 0 <= q < chosen@.len() ==> (#[trigger] chosen@[q] as int) < n,
                first == k || (first < p && !done@[first as int]),
                first < k ==> forall|q: int|
                    0 <= q < p && !done@[q] && q != first ==> m[chosen@[first as int] as int].time
                        < m[chosen@[q] as int].time || (m[chosen@[first as int] as int].time
                        == m[chosen@[q] as int].time && first < q),
                first == k ==> forall|q: int| 0 <= q < p ==> done@[q],
            decreases k - p,
        {
            if !done[p] {
                if first == k || marks[chosen[p]].time < marks[chosen[first]].time {
                    first = p;
                }
            }
            p = p + 1;
        }
        proof {
            if first == k {
                let q = choose|q: int| 0 <= q < done@.len() && !done@[q];
                assert(done@[q]);
            }
        }
        let ghost old_done = done@;
        let ghost old_order = order@;
        proof {
            lemma_count_true_set(done@, first as int);
        }
        done.set(first, true);
        order.push(first);
        assert(order@[old_order.len() as int] == first);
        assert forall|q: int| 0 <= q < k && done@[q] implies order@.contains(q as usize) by {
            if q != first {
                assert(old_done[q]);
                assert(old_order.contains(q as usize));
                let x = choose|x: int| 0 <= x < old_order.len() && old_order[x] == q as usize;
                assert(order@[x] == q as usize);
            } else {
                assert(order@[old_order.len() as int] == q as usize);
            }
        }
    }
    proof {
        lemma_count_true_bound(done@);
    }
    let mut r: Vec<TickMark> = Vec::new();
    let mut x: usize = 0;
    while x < k
        invariant
            n == marks@.len(),
            m == marks@,
            chosen@.len() == k,
            order@.len() == k,
            x <= k,
            r@.len() == x,
            forall|y: int| 0 <= y < k ==> (#[trigger] order@[y] as int) < k,
            forall|q: int| 0 <= q < k ==> (#[trigger] chosen@[q] as int) < n,
            forall|y: int| 0 <= y < x ==> #[trigger] r@[y] == m[chosen@[order@[y] as int] as int],
        decreases k - x,
    {
        r.push(marks[chosen[order[x]]].duplicate());
        x = x + 1;
    }
    proof {
        let sel = Seq::new(k as nat, |y: int| chosen@[order@[y] as int] as int);
        assert forall|p: int| 0 <= p < k implies 0 <= #[trigger] sel[p] < m.len() && r@[p] == m[sel[p]] by {}
        assert forall|p: int, q: int| 0 <= p < q < k implies sel[p] != sel[q] by {
            assert(order@[p] != order@[q]);
        }
        assert forall|p: int, j: int|
            #![trigger sel[p], sel.contains(j)]
            0 <= p < k && 0 <= j < m.len() && !sel.contains(j) implies ranks_before(m, sel[p], j) by {
            if taken@[j] {
                assert(chosen@.contains(j as usize));
                let c = choose|c: int| 0 <= c < chosen@.len() && chosen@[c] == j as usize;
                assert(done@[c]);
                assert(order@.contains(c as usize));
                let y = choose|y: int| 0 <= y < order@.len() && order@[y] == c as usize;
                assert(sel[y] == j);
            }
        }
        assert forall|p: int, q: int|
            0 <= p < q < k implies m[#[trigger] sel[p]].time < m[#[trigger] sel[q]].time || (
            m[sel[p]].time == m[sel[q]].time && ranks_before(m, sel[p], sel[q])) by {
            assert(order@[p] != order@[q]);
            if m[sel[p]].time == m[sel[q]].time {
                assert(order@[p] < order@[q]);
            }
        }
        assert(reduced_to(m, max_marks as int, r@, sel));
    }
    r
}


/// Whether mark `a` weighs more than mark `b`, or as much and is not later.
pub open spec fn heavier_or_earlier(a: TickMark, b: TickMark) -> bool {
    a.weight.spec_value() > b.weight.spec_value() || (a.weight.spec_value() == b.weight.spec_value()
        && a.time <= b.time)
}

/// When marks are reduced, the lower-weight marks are the ones dropped: every
/// kept mark weighs at least as much as every dropped one, and among equal
/// weights no dropped mark is earlier than a kept one.
pub proof fn reduction_keeps_heaviest(m: Seq<TickMark>, max: int, r: Seq<TickMark>, sel: Seq<int>)
    requires
        reduced_to(m, max, r, sel),
    ensures
        forall|p: int, j: int|
            #![trigger r[p], sel.contains(j)]
            0 <= p < max && 0 <= j < m.len() && !sel.contains(j) ==> heavier_or_earlier(r[p], m[j]),
{
    assert forall|p: int, j: int|
        #![trigger r[p], sel.contains(j)]
        0 <= p < max && 0 <= j < m.len() && !sel.contains(j) implies heavier_or_earlier(r[p], m[j]) by {
        assert(0 <= sel[p] < m.len() && r[p] == m[sel[p]]);
        assert(ranks_before(m, sel[p], j));
    }
}

/// Distance in milliseconds between two instants.
pub open spec fn time_distance(a: i64, b: i64) -> int {
    if a >= b {
        a - b
    } else {
        b - a
    }
}

/// Position of the first of the first `n` bars whose time is closest to `t`.
pub open spec fn closest_bar(bars: Seq<(i64, usize)>, t: i64, n: int) -> int
    decreases n,
{
    if n <= 1 {
        0
    } else {
        let c = closest_bar(bars, t, n - 1);
        if time_distance(bars[n - 1].0, t) < time_distance(bars[c].0, t) {
            n - 1
        } else {
            c
        }
    }
}

proof fn lemma_closest_bar_range(bars: Seq<(i64, usize)>, t: i64, n: int)
    requires
        1 <= n,
    ensures
        0 <= closest_bar(bars, t, n) < n,
    decreases n,
{
    if n > 1 {
        lemma_closest_bar_range(bars, t, n - 1);
    }
}

/// Map marks to bar indices: each mark takes the index of the bar closest to it
/// in time (the first of equally close ones); with no bars the marks are kept.
pub fn map_marks_to_bars(marks: Vec<TickMark>, bars: &[(i64, usize)]) -> (r: Vec<TickMark>)
    ensures
        r@.len() == marks@.len(),
        forall|i: int|
            0 <= i < r@.len() ==> {
                let m = #[trigger] marks@[i];
                &&& r@[i].time == m.time
                &&& r@[i].mark_type == m.mark_type
                &&& r@[i].weight == m.weight
                &&& r@[i].label == m.label
                &&& r@[i].index == if bars@.len() == 0 {
                    m.index
                } else {
                    bars@[closest_bar(bars@, m.time, bars@.len() as int)].1
                }
            },
{
    let mut marks = marks;
    let ghost m0 = marks@;
    let mut i: usize = 0;
    while i < marks.len()
        invariant
            marks@.len() == m0.len(),
            i <= marks@.len(),
            forall|k: int|
                i <= k < marks@.len() ==> #[trigger] marks@[k] == m0[k],
            forall|k: int|
                0 <= k < i ==> {
                    let m = #[trigger] m0[k];
                    &&& marks@[k].time == m.time
                    &&& marks@[k].mark_type == m.mark_type
                    &&& marks@[k].weight == m.weight
                    &&& marks@[k].label == m.label
                    &&& marks@[k].index == if bars@.len() == 0 {
                        m.index
                    } else {
                        bars@[closest_bar(bars@, m.time, bars@.len() as int)].1
                    }
                },
        decreases marks@.len() - i,
    {
        if bars.len() > 0 {
            let t = marks[i].time;
            let mut best: usize = 0;
            let mut best_dist: i128 = (bars[0].0 as i128 - t as i128);
            if best_dist < 0 {
                best_dist = -best_dist;
            }
            let mut j: usize = 1;
            while j < bars.len()
                invariant
                    1 <= j <= bars@.len(),
                    best == closest_bar(bars@, t, j as int),
                    best < j,
                    best_dist == time_distance(bars@[best as int].0, t),
                decreases bars@.len() - j,
            {
                let mut d: i128 = bars[j].0 as i128 - t as i128;
                if d < 0 {
                    d = -d;
                }
                if d < best_dist {
                    best = j;
                    best_dist = d;
                }
                j = j + 1;
            }
            let mut mark = marks[i].duplicate();
            mark.index = bars[best].1;
            marks.set(i, mark);
        }
        i = i + 1;
    }
    marks
}


/// `a / d` rounded toward zero, for a positive `d`.
pub open spec fn div_toward_zero(a: int, d: int) -> int {
    if a >= 0 {
        a / d
    } else {
        -((-a) / d)
    }
}

/// The instant `ms` rounded down to the boundary that marks `interval_ms` apart
/// start at: a multiple of the interval (counted toward zero, and kept only if
/// chrono can represent it) below one second, otherwise the start of the UTC
/// second, minute, hour or day.
pub open spec fn rounded_to_boundary(ms: i64, interval_ms: i64) -> int {
    let seconds = interval_ms / 1000;
    if seconds < 1 {
        let rounded = div_toward_zero(ms as int, interval_ms as int) * interval_ms;
        if utc_representable(rounded as i64) {
            rounded
        } else {
            ms as int
        }
    } else if seconds < 60 {
        ms - ms % 1000
    } else if seconds < 3600 {
        ms - ms % 60_000
    } else if seconds < 86400 {
        ms - ms % 3_600_000
    } else {
        ms - ms % 86_400_000
    }
}

/// Where marks are less than a second apart, the first candidate is the
/// multiple of the interval reached from `ms` by rounding toward zero (or `ms`
/// itself where chrono cannot represent that instant). Where they are at least
/// a second apart, the first candidate is the start of
/// the UTC second, minute, hour or day that holds `ms`: for an interval of a day
/// or more, the midnight at or before `ms`; for one of an hour up to a day, the
/// full hour at or before it; for one of a minute up to an hour, the full minute;
/// for one of a second up to a minute, the full second. Each is the one multiple
/// of its unit in the unit's length up to `ms`. When the interval is itself a
/// whole number of those units, every later candidate, whole intervals on, lies
/// on such a boundary too.
pub proof fn candidates_start_on_unit_boundaries(ms: i64, interval_ms: i64, k: int)
    requires
        interval_ms > 0,
        k >= 0,
    ensures
        ({
            let r = rounded_to_boundary(ms, interval_ms);
            let t = candidate_time(r, k, interval_ms);
            &&& interval_ms < 1000 ==> (r == ms || (r % (interval_ms as int) == 0 && (ms >= 0 ==> ms
                - interval_ms < r <= ms) && (ms < 0 ==> ms <= r < ms + interval_ms)))
            &&& interval_ms >= 86_400_000 ==> (r % 86_400_000 == 0 && ms - 86_400_000 < r <= ms)
            &&& (3_600_000 <= interval_ms < 86_400_000) ==> (r % 3_600_000 == 0 && ms - 3_600_000 < r
                <= ms)
            &&& (60_000 <= interval_ms < 3_600_000) ==> (r % 60_000 == 0 && ms - 60_000 < r <= ms)
            &&& (1000 <= interval_ms < 60_000) ==> (r % 1000 == 0 && ms - 1000 < r <= ms)
            &&& (interval_ms >= 86_400_000 && interval_ms % 86_400_000 == 0) ==> t % 86_400_000 == 0
            &&& (3_600_000 <= interval_ms < 86_400_000 && interval_ms % 3_600_000 == 0) ==> t
                % 3_600_000 == 0
            &&& (60_000 <= interval_ms < 3_600_000 && interval_ms % 60_000 == 0) ==> t % 60_000 == 0
            &&& (1000 <= interval_ms < 60_000 && interval_ms % 1000 == 0) ==> t % 1000 == 0
        }),
{
    let r = rounded_to_boundary(ms, interval_ms);
    let i = interval_ms as int;
    let m = ms as int;
    if i < 1000 {
        let q = div_toward_zero(m, i);
        if m >= 0 {
            assert(q * i % i == 0 && m - i < q * i <= m) by (nonlinear_arith)
                requires
                    q == m / i,
                    m >= 0,
                    i > 0,
            {
                vstd::arithmetic::div_mod::lemma_mod_multiples_basic(q, i);
            }
        } else {
            assert(q * i % i == 0 && m <= q * i < m + i) by (nonlinear_arith)
                requires
                    q == -((-m) / i),
                    m < 0,
                    i > 0,
            {
                vstd::arithmetic::div_mod::lemma_mod_multiples_basic(q, i);
            }
        }
    } else {
        let u: int = if i >= 86_400_000 {
            86_400_000
        } else if i >= 3_600_000 {
            3_600_000
        } else if i >= 60_000 {
            60_000
        } else {
            1000
        };
        assert(r == m - m % u);
        assert(r % u == 0 && m - u < r <= m) by (nonlinear_arith)
            requires
                r == m - m % u,
                u > 0,
        ;
        if i % u == 0 {
            assert((r + k * i) % u == 0) by (nonlinear_arith)
                requires
                    r % u == 0,
                    i % u == 0,
                    u > 0,
            {
                let a = r / u;
                let b = i / u;
                assert(r == a * u);
                assert(i == b * u);
                assert(r + k * i == (a + k * b) * u);
                vstd::arithmetic::div_mod::lemma_mod_multiples_basic(a + k * b, u);
            }
        }
    }
}

/// Round the instant `ms` down to the boundary that marks `interval_ms` apart
/// start at.
fn round_time_to_boundary(ms: i64, interval_ms: i64) -> (r: i64)
    requires
        utc_representable(ms),
        interval_ms > 0,
    ensures
        r == rounded_to_boundary(ms, interval_ms),
{
    let seconds = interval_ms / 1000;
    if seconds < 1 {
        let q = ms / interval_ms;
        let ghost a = ms as int;
        let ghost d = interval_ms as int;
        let ghost tq = div_toward_zero(a, d);
        assert(q == tq);
        assert(i64::MIN <= tq * d <= i64::MAX) by (nonlinear_arith)
            requires
                d > 0,
                i64::MIN <= a <= i64::MAX,
                a >= 0 ==> tq == a / d,
                a < 0 ==> tq == -((-a) / d),
        {
            if a >= 0 {
                assert(0 <= (a / d) * d <= a);
            } else {
                assert(0 <= ((-a) / d) * d <= -a);
            }
        }
        let rounded = q * interval_ms;
        if is_representable(rounded) {
            rounded
        } else {
            ms
        }
    } else {
        let hour = hour_of(ms);
        let minute = minute_of(ms);
        let second = second_of(ms);
        let ghost sod = utc_seconds_of_day(ms);
        proof {
            assert(sod == hour * 3600 + minute * 60 + second) by (nonlinear_arith)
                requires
                    0 <= sod,
                    hour == sod / 3600,
                    minute == (sod / 60) % 60,
                    second == sod % 60,
            ;
            lemma_day_split(ms);
        }
        if seconds < 60 {
            date_at(ms, hour, minute, second)
        } else if seconds < 3600 {
            date_at(ms, hour, minute, 0)
        } else if seconds < 86400 {
            date_at(ms, hour, 0, 0)
        } else {
            date_at(ms, 0, 0, 0)
        }
    }
}

/// How the time of day splits an instant: its day start, plus whole seconds of
/// the day, plus the milliseconds of the second.
proof fn lemma_day_split(ms: i64)
    ensures
        ms == ms - ms % 86_400_000 + utc_seconds_of_day(ms) * 1000 + ms % 1000,
        ms - ms % 60_000 == ms - ms % 86_400_000 + (utc_seconds_of_day(ms) / 60) * 60_000,
        ms - ms % 3_600_000 == ms - ms % 86_400_000 + (utc_seconds_of_day(ms) / 3600) * 3_600_000,
        0 <= utc_seconds_of_day(ms) < 86400,
{
    let m = ms as int;
    assert(m % 86_400_000 == ((m / 1000) % 86400) * 1000 + m % 1000) by (nonlinear_arith);
    assert(m % 60_000 == ((m / 1000) % 60) * 1000 + m % 1000) by (nonlinear_arith);
    assert(m % 3_600_000 == ((m / 1000) % 3600) * 1000 + m % 1000) by (nonlinear_arith);
    assert(((m / 1000) % 86400) / 60 * 60 + (m / 1000) % 60 == (m / 1000) % 86400) by (
    nonlinear_arith);
    assert(((m / 1000) % 86400) / 3600 * 3600 + (m / 1000) % 3600 == (m / 1000) % 86400) by (
    nonlinear_arith);
}

/// The `k`-th candidate instant: `k` intervals after the first.
pub open spec fn candidate_time(first: int, k: int, interval_ms: i64) -> int {
    first + k * interval_ms
}

/// Number of candidate instants from `first` up to `end`, `interval_ms` apart.
pub open spec fn candidate_count(first: int, end: i64, interval_ms: i64) -> int {
    if first > end {
        0
    } else {
        (end - first) / (interval_ms as int) + 1
    }
}

/// Whether every candidate instant, and the first one past `end`, is a UTC time
/// that chrono can represent.
pub open spec fn candidates_representable(first: int, end: i64, interval_ms: i64) -> bool {
    forall|k: int|
        0 <= k <= candidate_count(first, end, interval_ms) ==> i64::MIN <= #[trigger] candidate_time(
            first,
            k,
            interval_ms,
        ) <= i64::MAX && utc_representable(candidate_time(first, k, interval_ms) as i64)
}

proof fn lemma_candidate_count(first: int, end: i64, interval_ms: i64, k: int)
    requires
        interval_ms > 0,
        0 <= k <= candidate_count(first, end, interval_ms),
    ensures
        candidate_time(first, k, interval_ms) <= end <==> k < candidate_count(first, end, interval_ms),
{
    let n = candidate_count(first, end, interval_ms);
    if first <= end {
        let d = end - first;
        let i = interval_ms as int;
        assert((d / i) * i <= d && d < (d / i + 1) * i) by (nonlinear_arith)
            requires
                d >= 0,
                i > 0,
        ;
        if k < n {
            assert(k * i <= (d / i) * i) by (nonlinear_arith)
                requires
                    k <= d / i,
                    i > 0,
            ;
        } else {
            assert(k * i == (d / i + 1) * i) by (nonlinear_arith)
                requires
                    k == d / i + 1,
            ;
        }
    }
}

/// Generate the candidate marks from `start` rounded down to the interval's
/// boundary up to `end`, `interval_ms` apart, each classified and labelled.
pub fn generate_candidate_marks(
    start: i64,
    end: i64,
    interval_ms: i64,
    primary_type: TickMarkType,
    formatter: &TimeFormatterKind,
) -> (r: Vec<TickMark>)
    requires
        interval_ms > 0,
        utc_representable(start),
        candidates_representable(rounded_to_boundary(start, interval_ms), end, interval_ms),
    ensures
        r@.len() == candidate_count(rounded_to_boundary(start, interval_ms), end, interval_ms),
        forall|k: int|
            0 <= k < r@.len() ==> {
                let t = candidate_time(rounded_to_boundary(start, interval_ms), k, interval_ms);
                let c = time_boundary_class(t as i64, primary_type);
                &&& (#[trigger] r@[k]).time == t
                &&& r@[k].mark_type == c.0
                &&& r@[k].weight.spec_value() == c.1
                &&& r@[k].label@ == utc_formatted(t as i64, formatter.spec_pattern(c.0))
                &&& r@[k].index == 0
            },
{
    let mut marks: Vec<TickMark> = Vec::new();
    let mut current = round_time_to_boundary(start, interval_ms);
    let ghost first = current as int;
    let ghost n = candidate_count(first, end, interval_ms);
    proof {
        lemma_candidate_count(first, end, interval_ms, 0);
        assert(candidate_time(first, 0, interval_ms) == first);
    }
    while current <= end
        invariant
            interval_ms > 0,
            first == rounded_to_boundary(start, interval_ms),
            n == candidate_count(first, end, interval_ms),
            candidates_representable(first, end, interval_ms),
            0 <= marks@.len() <= n,
            current == candidate_time(first, marks@.len() as int, interval_ms),
            current <= end <==> marks@.len() < n,
            forall|k: int|
                0 <= k < marks@.len() ==> {
                    let t = candidate_time(first, k, interval_ms);
                    let c = time_boundary_class(t as i64, primary_type);
                    &&& (#[trigger] marks@[k]).time == t
                    &&& marks@[k].mark_type == c.0
                    &&& marks@[k].weight.spec_value() == c.1
                    &&& marks@[k].label@ == utc_formatted(t as i64, formatter.spec_pattern(c.0))
                    &&& marks@[k].index == 0
                },
        decreases n - marks@.len(),
    {
        let ghost k = marks@.len() as int;
        assert(utc_representable(candidate_time(first, k, interval_ms) as i64));
        assert(utc_representable(candidate_time(first, k + 1, interval_ms) as i64));
        assert(i64::MIN <= candidate_time(first, k + 1, interval_ms) <= i64::MAX);
        assert(candidate_time(first, k + 1, interval_ms) == current + interval_ms) by (
        nonlinear_arith)
            requires
                current == first + k * interval_ms,
        ;
        let (mark_type, weight) = classify_time_boundary(current, primary_type);
        let label = formatter.format(current, mark_type);
        marks.push(TickMark { time: current, mark_type, weight, label, index: 0 });
        current = current + interval_ms;
        proof {
            lemma_candidate_count(first, end, interval_ms, k + 1);
        }
    }
    marks
}

/// Generates the candidate marks as [`generate_candidate_marks`] does when the
/// interval is positive and every instant it visits is one that chrono can
/// represent; `None` otherwise.
pub fn generate_candidate_marks_checked(
    start: i64,
    end: i64,
    interval_ms: i64,
    primary_type: TickMarkType,
    formatter: &TimeFormatterKind,
) -> (r: Option<Vec<TickMark>>)
    ensures
        r is Some <==> (interval_ms > 0 && utc_representable(start) && candidates_representable(
            rounded_to_boundary(start, interval_ms),
            end,
            interval_ms,
        )),
        r matches Some(v) ==> v@.len() == candidate_count(
            rounded_to_boundary(start, interval_ms),
            end,
            interval_ms,
        ) && forall|k: int|
            0 <= k < v@.len() ==> (#[trigger] v@[k]).time == candidate_time(
                rounded_to_boundary(start, interval_ms),
                k,
                interval_ms,
            ),
{
    if interval_ms <= 0 || !is_representable(start) {
        return None;
    }
    let first = round_time_to_boundary(start, interval_ms);
    let ghost n = candidate_count(first as int, end, interval_ms);
    let mut current: i64 = first;
    let ghost mut k: int = 0;
    proof {
        lemma_candidate_count(first as int, end, interval_ms, 0);
    }
    loop
        invariant
            interval_ms > 0,
            first == rounded_to_boundary(start, interval_ms),
            n == candidate_count(first as int, end, interval_ms),
            0 <= k <= n,
            current == candidate_time(first as int, k, interval_ms),
            current <= end <==> k < n,
            forall|j: int|
                0 <= j < k ==> i64::MIN <= #[trigger] candidate_time(first as int, j, interval_ms)
                    <= i64::MAX && utc_representable(
                    candidate_time(first as int, j, interval_ms) as i64,
                ),
        ensures
            candidates_representable(first as int, end, interval_ms),
        decreases n - k,
    {
        if !is_representable(current) {
            proof {
                assert(!utc_representable(candidate_time(first as int, k, interval_ms) as i64));
            }
            return None;
        }
        if current > end {
            break;
        }
        if current > i64::MAX - interval_ms {
            proof {
                assert(candidate_time(first as int, k + 1, interval_ms) > i64::MAX) by (
                nonlinear_arith)
                    requires
                        current == first + k * interval_ms,
                        current > i64::MAX - interval_ms,
                ;
            }
            return None;
        }
        assert(candidate_time(first as int, k + 1, interval_ms) == current + interval_ms) by (
        nonlinear_arith)
            requires
                current == first + k * interval_ms,
        ;
        current = current + interval_ms;
        proof {
            k = k + 1;
            lemma_candidate_count(first as int, end, interval_ms, k);
        }
    }
    Some(generate_candidate_marks(start, end, interval_ms, primary_type, formatter))
}

} // verus!

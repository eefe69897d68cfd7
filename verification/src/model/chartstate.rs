//! Visible bar range of the chart state.
//!
//! The time scale reports which logical bar indices fall inside the chart
//! area and how many bars fit; the chart state clamps that range to the data
//! it holds, widening it at the start of the data so the chart is filled.
use vstd::prelude::*;

verus! {

/// The visible bar range `[start, end)` for `data_len` bars, from the strict
/// range `[start, end)` of the time scale and the number of bars that fit.
pub open spec fn spec_visible_range(start: nat, end: nat, data_len: nat, expected_visible: nat) -> (
    nat,
    nat,
) {
    if data_len == 0 {
        (0, 0)
    } else {
        let end1 = if end < data_len { end } else { data_len };
        let start1 = if start < end1 { start } else { end1 };
        if end1 - start1 < expected_visible && start1 == 0 && data_len > 1 {
            (0, if expected_visible < data_len { expected_visible } else { data_len })
        } else {
            (start1, end1)
        }
    }
}

/// Clamps the time scale's strict range `[start, end)` to the `data_len` bars
/// held: the end is cut to the data, the start to the end, and when the range
/// begins at the first bar but holds fewer than `expected_visible` bars (and
/// there is more than one bar), it is widened to `expected_visible` bars or
/// all of the data. No data gives the empty range `(0, 0)`.
pub fn clamp_visible_range(start: usize, end: usize, data_len: usize, expected_visible: usize) -> (r: (
    usize,
    usize,
))
    ensures
        (r.0 as nat, r.1 as nat) == spec_visible_range(
            start as nat,
            end as nat,
            data_len as nat,
            expected_visible as nat,
        ),
        r.0 <= r.1 <= data_len,
{
    if data_len == 0 {
        return (0, 0);
    }
    let mut end = if end < data_len { end } else { data_len };
    let start = if start < end { start } else { end };
    let actual_visible = end - start;
    if actual_visible < expected_visible && start == 0 && data_len > 1 {
        end = if expected_visible < data_len { expected_visible } else { data_len };
    }
    (start, end)
}

} // verus!

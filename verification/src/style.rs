//! Per-cell styling of a clock row.
//!
//! Each hour cell is styled from two predicates — whether the hour falls in
//! the workday block and whether it is the row's current hour — with the
//! combination of both taking priority over either alone.

use vstd::prelude::*;

verus! {

/// First hour of the workday block, inclusive.
pub const WORKDAY_START: u8 = 9;

/// Last hour of the workday block, inclusive.
pub const WORKDAY_END: u8 = 17;

/// The style of one hour cell, one variant per combination of the two
/// styling predicates.
#[derive(Clone, Copy, Debug, PartialEq, Eq, Structural)]
pub enum CellStyle {
    /// The current hour inside the workday block: alert foreground on the
    /// workday background (the strongest emphasis).
    WorkdayCurrent,
    /// A workday hour other than the current one: neutral foreground on the
    /// workday background.
    Workday,
    /// The current hour outside the workday: alert foreground, no special
    /// background.
    Current,
    /// Any other hour: default terminal rendering.
    Plain,
}

/// Whether `h` lies in the workday block [9, 17].
pub open spec fn is_workday_hour(h: int) -> bool {
    WORKDAY_START <= h <= WORKDAY_END
}

/// Whether `h` is the row's current hour `cur`.
pub open spec fn is_current_hour(h: int, cur: int) -> bool {
    h == cur
}

/// The style of the cell for hour `h` when the row's current hour is `cur`.
pub open spec fn style_for(h: int, cur: int) -> CellStyle {
    if is_workday_hour(h) && is_current_hour(h, cur) {
        CellStyle::WorkdayCurrent
    } else if is_workday_hour(h) {
        CellStyle::Workday
    } else if is_current_hour(h, cur) {
        CellStyle::Current
    } else {
        CellStyle::Plain
    }
}

/// The four styling cases are exhaustive and mutually exclusive: for every
/// hour and every current-hour value, each variant is assigned exactly when
/// its combination of the two predicates holds, so exactly one of the four
/// applies.
pub proof fn lemma_style_cases_exhaustive_exclusive(h: int, cur: int)
    requires
        0 <= h < 24,
        0 <= cur < 24,
    ensures
        (style_for(h, cur) == CellStyle::WorkdayCurrent) <==> (is_workday_hour(h)
            && is_current_hour(h, cur)),
        (style_for(h, cur) == CellStyle::Workday) <==> (is_workday_hour(h) && !is_current_hour(
            h,
            cur,
        )),
        (style_for(h, cur) == CellStyle::Current) <==> (!is_workday_hour(h) && is_current_hour(
            h,
            cur,
        )),
        (style_for(h, cur) == CellStyle::Plain) <==> (!is_workday_hour(h) && !is_current_hour(
            h,
            cur,
        )),
{
}

/// The style of the cell for `hour` when the row's current hour is
/// `current`.
pub fn cell_style(hour: u8, current: u8) -> (r: CellStyle)
    ensures
        r == style_for(hour as int, current as int),
{
    match (hour >= WORKDAY_START && hour <= WORKDAY_END, hour == current) {
        (true, true) => CellStyle::WorkdayCurrent,
        (true, false) => CellStyle::Workday,
        (false, true) => CellStyle::Current,
        (false, false) => CellStyle::Plain,
    }
}

} // verus!

//! Building one clock row: 24 hour cells, each with its two-digit label, its
//! style, and the styling of the two-space separator that follows it.

use vstd::prelude::*;
use crate::hours::{hour_at, lemma_hour_at_range, rotated_hours};
use crate::style::{cell_style, style_for, CellStyle, WORKDAY_END};

verus! {

/// The decimal digit character for `d` in 0..10.
pub open spec fn digit_char(d: int) -> char {
    if d == 0 {
        '0'
    } else if d == 1 {
        '1'
    } else if d == 2 {
        '2'
    } else if d == 3 {
        '3'
    } else if d == 4 {
        '4'
    } else if d == 5 {
        '5'
    } else if d == 6 {
        '6'
    } else if d == 7 {
        '7'
    } else if d == 8 {
        '8'
    } else {
        '9'
    }
}

/// The two-digit, zero-padded decimal rendering of `n` in 0..100.
pub open spec fn label_seq(n: int) -> Seq<char> {
    seq![digit_char(n / 10), digit_char(n % 10)]
}

/// The single-character string for a decimal digit.
fn digit_str(d: u8) -> (r: &'static str)
    requires
        d < 10,
    ensures
        r@ == seq![digit_char(d as int)],
{
    let r = match d {
        0 => "0",
        1 => "1",
        2 => "2",
        3 => "3",
        4 => "4",
        5 => "5",
        6 => "6",
        7 => "7",
        8 => "8",
        _ => "9",
    };
    proof {
        reveal_strlit("0");
        reveal_strlit("1");
        reveal_strlit("2");
        reveal_strlit("3");
        reveal_strlit("4");
        reveal_strlit("5");
        reveal_strlit("6");
        reveal_strlit("7");
        reveal_strlit("8");
        reveal_strlit("9");
        assert(r@ =~= seq![digit_char(d as int)]);
    }
    r
}

/// The two-character, zero-padded decimal label for `n`: a leading zero is
/// prepended to a single-digit value.
pub fn with_leading_zero(n: u8) -> (r: String)
    requires
        n < 100,
    ensures
        r@ == label_seq(n as int),
{
    let tens = digit_str(n / 10);
    let ones = digit_str(n % 10);
    let r = tens.to_owned().concat(ones);
    assert(r@ =~= label_seq(n as int));
    r
}

/// One hour cell of a clock row.
pub struct Cell {
    /// The hour-of-day this cell shows, in 0..24.
    pub hour: u8,
    /// The two-digit, zero-padded rendering of `hour`.
    pub label: String,
    /// The styling of the label (and of the separator after it, where that
    /// separator is styled at all).
    pub style: CellStyle,
    /// Whether the two-space separator after this cell carries the cell's
    /// style.  The separator after the final workday hour is left unstyled
    /// as a visual break, whatever that cell's own style.
    pub styled_separator: bool,
}

/// One rendered clock row: a leading title and 24 hour cells.
pub struct ClockRow {
    /// The row's leading title.
    pub label: String,
    /// The 24 hour cells, in column order.
    pub cells: Vec<Cell>,
}

/// What the cell at column `c` of a row with the given rotation `offset` and
/// current hour `cur` must hold.
pub open spec fn cell_ok(cell: Cell, offset: int, cur: int, c: int) -> bool {
    &&& cell.hour == hour_at(offset, c)
    &&& cell.label@ == label_seq(hour_at(offset, c))
    &&& cell.style == style_for(hour_at(offset, c), cur)
    &&& cell.styled_separator == (hour_at(offset, c) != WORKDAY_END)
}

/// What a whole row must hold: its title, and every one of its 24 cells.
pub open spec fn row_ok(row: ClockRow, label: Seq<char>, offset: int, cur: int) -> bool {
    &&& row.label@ == label
    &&& row.cells@.len() == 24
    &&& forall|c: int| 0 <= c < 24 ==> cell_ok(#[trigger] row.cells@[c], offset, cur, c)
}

/// Build the clock row titled `label` for a timezone `offset` whole hours
/// from the viewer whose current hour-of-day is `current_hour`: column `c`
/// shows hour `(c + offset) mod 24` with its zero-padded label, its style,
/// and an unstyled separator after the final workday hour.
pub fn build_row(label: String, offset: i32, current_hour: u8) -> (r: ClockRow)
    requires
        current_hour < 24,
    ensures
        row_ok(r, label@, offset as int, current_hour as int),
{
    let hours = rotated_hours(offset);
    let mut cells: Vec<Cell> = Vec::new();
    for c in 0..24usize
        invariant
            hours@.len() == 24,
            forall|i: int| 0 <= i < 24 ==> hours@[i] == hour_at(offset as int, i),
            current_hour < 24,
            cells@.len() == c,
            forall|i: int|
                0 <= i < c ==> cell_ok(
                    #[trigger] cells@[i],
                    offset as int,
                    current_hour as int,
                    i,
                ),
    {
        let h = hours[c];
        proof {
            lemma_hour_at_range(offset as int, c as int);
        }
        let cell = Cell {
            hour: h,
            label: with_leading_zero(h),
            style: cell_style(h, current_hour),
            styled_separator: h != WORKDAY_END,
        };
        cells.push(cell);
    }
    ClockRow { label, cells }
}

/// With no rotation the row reads naturally: column `c` shows hour `c`, so
/// the labels run "00", "01", ..., "23" in order.
pub proof fn lemma_offset_zero_natural(row: ClockRow, label: Seq<char>, cur: int)
    requires
        row_ok(row, label, 0, cur),
    ensures
        forall|c: int| 0 <= c < 24 ==> #[trigger] row.cells@[c].hour == c,
        forall|c: int| 0 <= c < 24 ==> (#[trigger] row.cells@[c]).label@ == label_seq(c),
{
    assert forall|c: int| 0 <= c < 24 implies #[trigger] row.cells@[c].hour == c by {
        assert(hour_at(0, c) == c % 24);
        vstd::arithmetic::div_mod::lemma_small_mod(c as nat, 24);
    }
}

/// The separator after the cell holding the final workday hour is unstyled
/// in every row, whatever column that hour lands in after rotation; the
/// separator after every other cell carries that cell's style.
pub proof fn lemma_workday_end_separator(row: ClockRow, label: Seq<char>, offset: int, cur: int)
    requires
        row_ok(row, label, offset, cur),
    ensures
        exists|c: int| 0 <= c < 24 && (#[trigger] row.cells@[c]).hour == WORKDAY_END,
        forall|c: int|
            0 <= c < 24 ==> ((#[trigger] row.cells@[c]).styled_separator <==> row.cells@[c].hour
                != WORKDAY_END),
{
    let w = (WORKDAY_END - offset) % 24;
    vstd::arithmetic::div_mod::lemma_mod_division_less_than_divisor(WORKDAY_END - offset, 24);
    vstd::arithmetic::div_mod::lemma_add_mod_noop_right(offset, WORKDAY_END - offset, 24);
    vstd::arithmetic::div_mod::lemma_small_mod(WORKDAY_END as nat, 24);
    assert(hour_at(offset, w) == WORKDAY_END);
    assert(row.cells@[w].hour == WORKDAY_END);
}

} // verus!

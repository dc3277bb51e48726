use tzclock::row::build_row;
use tzclock::style::CellStyle;

#[test]
fn row_keeps_its_label_and_has_24_cells() {
    let row = build_row("Oslo".to_string(), 3, 12);
    assert_eq!(row.label, "Oslo");
    assert_eq!(row.cells.len(), 24);
}

#[test]
fn offset_zero_labels_are_natural_order() {
    let row = build_row("local time".to_string(), 0, 5);
    for c in 0..24usize {
        assert_eq!(row.cells[c].label, format!("{:02}", c));
        assert_eq!(row.cells[c].hour, c as u8);
    }
}

#[test]
fn labels_follow_modular_formula_for_all_offsets() {
    for offset in -23i32..=23 {
        let row = build_row("x".to_string(), offset, 0);
        for c in 0..24i32 {
            let expected = (c + offset).rem_euclid(24);
            assert_eq!(
                row.cells[c as usize].label,
                format!("{:02}", expected),
                "offset {} column {}",
                offset,
                c
            );
        }
    }
}

#[test]
fn separator_after_workday_end_is_unstyled_for_every_offset() {
    for offset in -23i32..=23 {
        for current in 0..24u8 {
            let row = build_row("x".to_string(), offset, current);
            let mut unstyled = 0;
            for cell in &row.cells {
                if cell.hour == 17 {
                    assert!(!cell.styled_separator, "offset {}", offset);
                    unstyled += 1;
                } else {
                    assert!(cell.styled_separator, "offset {}", offset);
                }
            }
            assert_eq!(unstyled, 1, "hour 17 appears exactly once");
        }
    }
}

#[test]
fn city_five_hours_ahead_at_fourteen_local() {
    // A city five hours ahead of a viewer whose current hour is 14 has
    // current hour 19; its row is rotated left by 5.
    let row = build_row("CityA".to_string(), 5, 19);
    // Hour 19 lands in column 14 and is highlighted as the current hour
    // (outside the workday block, so no workday background).
    assert_eq!(row.cells[14].hour, 19);
    assert_eq!(row.cells[14].label, "19");
    assert_eq!(row.cells[14].style, CellStyle::Current);
    // The workday block, hours 9 through 17, sits in columns 4 through 12.
    for c in 4..=12usize {
        let hour = row.cells[c].hour;
        assert!((9..=17).contains(&hour));
        assert_eq!(row.cells[c].style, CellStyle::Workday);
    }
    // The separator after the column holding hour 17 is unstyled.
    assert_eq!(row.cells[12].hour, 17);
    assert!(!row.cells[12].styled_separator);
    // Every other cell keeps a styled separator.
    for c in 0..24usize {
        assert_eq!(row.cells[c].styled_separator, c != 12);
    }
}

#[test]
fn current_hour_inside_workday_gets_strongest_emphasis() {
    let row = build_row("x".to_string(), 0, 10);
    assert_eq!(row.cells[10].style, CellStyle::WorkdayCurrent);
    assert_eq!(row.cells[9].style, CellStyle::Workday);
    assert_eq!(row.cells[8].style, CellStyle::Plain);
}

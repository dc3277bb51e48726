use tzclock::hours::{natural_hours, rotate_left_hours, rotate_right_hours, rotated_hours};

fn natural() -> Vec<u8> {
    (0..24).collect()
}

#[test]
fn natural_hours_is_zero_to_twenty_three() {
    assert_eq!(natural_hours(), natural());
}

#[test]
fn rotate_left_then_right_restores_original() {
    for k in 0..24usize {
        let rotated = rotate_left_hours(&natural(), k);
        let back = rotate_right_hours(&rotated, k);
        assert_eq!(back, natural(), "round trip failed for k = {}", k);
    }
}

#[test]
fn rotate_right_then_left_restores_original() {
    for k in 0..24usize {
        let rotated = rotate_right_hours(&natural(), k);
        let back = rotate_left_hours(&rotated, k);
        assert_eq!(back, natural(), "round trip failed for k = {}", k);
    }
}

#[test]
fn rotated_by_zero_is_natural() {
    assert_eq!(rotated_hours(0), natural());
}

#[test]
fn rotated_matches_modular_formula() {
    for offset in -48i32..=48 {
        let r = rotated_hours(offset);
        assert_eq!(r.len(), 24);
        for c in 0..24i32 {
            let expected = (c + offset).rem_euclid(24) as u8;
            assert_eq!(r[c as usize], expected, "offset {} column {}", offset, c);
        }
    }
}

#[test]
fn rotated_positive_five() {
    let r = rotated_hours(5);
    assert_eq!(r[0], 5);
    assert_eq!(r[18], 23);
    assert_eq!(r[19], 0);
    assert_eq!(r[23], 4);
}

#[test]
fn rotated_negative_five() {
    let r = rotated_hours(-5);
    assert_eq!(r[0], 19);
    assert_eq!(r[4], 23);
    assert_eq!(r[5], 0);
    assert_eq!(r[23], 18);
}

#[test]
fn rotated_reduces_offset_modulo_24() {
    assert_eq!(rotated_hours(24), rotated_hours(0));
    assert_eq!(rotated_hours(29), rotated_hours(5));
    assert_eq!(rotated_hours(-29), rotated_hours(-5));
    assert_eq!(rotated_hours(-24), rotated_hours(0));
}

//! The 24-hour sequence and its circular rotations.
//!
//! A clock row shows, at column `c` of the viewer's day, the hour that is
//! simultaneous in the target timezone: hour `(c + offset) mod 24`, where
//! `offset` is the target's whole-hour difference from the viewer.  Rotating
//! the natural sequence `0, 1, ..., 23` left by `offset` (right by
//! `-offset` when negative) produces exactly that column-to-hour mapping.

use vstd::prelude::*;
use vstd::arithmetic::div_mod::{
    lemma_add_mod_noop_right, lemma_mod_division_less_than_divisor, lemma_small_mod,
    lemma_sub_mod_noop_right,
};

verus! {

/// The hour value that lands in column `c` after rotating the natural
/// 24-hour sequence by `offset` (Euclidean modulo, so any integer offset
/// reduces into 0..24).
pub open spec fn hour_at(offset: int, c: int) -> int {
    (c + offset) % 24
}

/// The natural hour sequence 0, 1, ..., 23.
pub open spec fn natural_seq() -> Seq<u8> {
    Seq::new(24, |i: int| i as u8)
}

/// `s` rotated left by `k` positions, circularly: element `i` of the result
/// is element `(i + k) mod len` of `s`.
pub open spec fn rotate_left_spec(s: Seq<u8>, k: int) -> Seq<u8> {
    Seq::new(s.len(), |i: int| s[(i + k) % (s.len() as int)])
}

/// `s` rotated right by `k` positions, circularly: element `i` of the result
/// is element `(i - k) mod len` of `s`.
pub open spec fn rotate_right_spec(s: Seq<u8>, k: int) -> Seq<u8> {
    Seq::new(s.len(), |i: int| s[(i - k) % (s.len() as int)])
}

/// Every hour produced by a rotation is a valid hour-of-day.
pub proof fn lemma_hour_at_range(offset: int, c: int)
    ensures
        0 <= hour_at(offset, c) < 24,
{
    lemma_mod_division_less_than_divisor(c + offset, 24);
}

/// Rotating the 24-element sequence left by `k` and then right by the same
/// `k` restores the original sequence, for every integer `k`.
pub proof fn lemma_rotate_round_trip(s: Seq<u8>, k: int)
    requires
        s.len() == 24,
    ensures
        rotate_right_spec(rotate_left_spec(s, k), k) == s,
{
    let mid = rotate_left_spec(s, k);
    assert forall|i: int| 0 <= i < 24 implies rotate_right_spec(mid, k)[i] == s[i] by {
        lemma_mod_division_less_than_divisor(i - k, 24);
        assert(rotate_right_spec(mid, k)[i] == mid[(i - k) % 24]);
        assert(mid[(i - k) % 24] == s[(((i - k) % 24) + k) % 24]);
        lemma_add_mod_noop_right(k, i - k, 24);
        assert((k + ((i - k) % 24)) % 24 == (k + (i - k)) % 24);
        lemma_small_mod(i as nat, 24);
        assert((i - k + k) % 24 == i);
    }
    assert(rotate_right_spec(mid, k) =~= s);
}

/// The natural hour sequence 0, 1, ..., 23 as a vector.
pub fn natural_hours() -> (r: Vec<u8>)
    ensures
        r@ == natural_seq(),
{
    let mut r: Vec<u8> = Vec::new();
    for i in 0..24u8
        invariant
            r@.len() == i,
            forall|c: int| 0 <= c < i ==> r@[c] == c,
    {
        r.push(i);
    }
    assert(r@ =~= natural_seq());
    r
}

/// Rotate a 24-element vector left by `k` positions, wrapping circularly.
pub fn rotate_left_hours(v: &Vec<u8>, k: usize) -> (r: Vec<u8>)
    requires
        v@.len() == 24,
        k < 24,
    ensures
        r@ == rotate_left_spec(v@, k as int),
{
    let mut r: Vec<u8> = Vec::new();
    for i in 0..24usize
        invariant
            v@.len() == 24,
            k < 24,
            r@.len() == i,
            forall|c: int| 0 <= c < i ==> r@[c] == v@[(c + k) % 24],
    {
        r.push(v[(i + k) % 24]);
    }
    assert(r@ =~= rotate_left_spec(v@, k as int));
    r
}

/// Rotate a 24-element vector right by `k` positions, wrapping circularly.
pub fn rotate_right_hours(v: &Vec<u8>, k: usize) -> (r: Vec<u8>)
    requires
        v@.len() == 24,
        k < 24,
    ensures
        r@ == rotate_right_spec(v@, k as int),
{
    let mut r: Vec<u8> = Vec::new();
    for i in 0..24usize
        invariant
            v@.len() == 24,
            k < 24,
            r@.len() == i,
            forall|c: int| 0 <= c < i ==> r@[c] == v@[(c - k) % 24],
    {
        proof {
            lemma_sub_mod_noop_right(i as int, -24 + (k as int), 24);
            assert((i + 24 - k) % 24 == (i - k) % 24) by {
                assert((-24 + (k as int)) % 24 == (k as int) % 24) by {
                    lemma_add_mod_noop_right(0, -24 + (k as int), 24);
                    lemma_add_mod_noop_right(0, k as int, 24);
                };
                lemma_sub_mod_noop_right(i as int, k as int, 24);
            };
        }
        r.push(v[(i + 24 - k) % 24]);
    }
    assert(r@ =~= rotate_right_spec(v@, k as int));
    r
}

/// The hours of the natural sequence rotated by `offset`: the offset is
/// reduced into 0..24 by the Euclidean modulo (under which a right rotation
/// by `-offset` equals a left rotation by the reduced amount) and the
/// sequence rotated left.  Column `c` of the result holds hour
/// `(c + offset) mod 24`.
pub fn rotated_hours(offset: i32) -> (r: Vec<u8>)
    ensures
        r@.len() == 24,
        forall|c: int| 0 <= c < 24 ==> r@[c] == hour_at(offset as int, c),
{
    let k: i32 = offset.checked_rem_euclid(24).unwrap();
    proof {
        lemma_mod_division_less_than_divisor(offset as int, 24);
    }
    let natural = natural_hours();
    let r = rotate_left_hours(&natural, k as usize);
    assert forall|c: int| 0 <= c < 24 implies r@[c] == hour_at(offset as int, c) by {
        lemma_mod_division_less_than_divisor(c + k, 24);
        assert(r@[c] == natural_seq()[(c + k) % 24]);
        assert(r@[c] == (c + k) % 24);
        lemma_add_mod_noop_right(c, offset as int, 24);
    }
    r
}

} // verus!

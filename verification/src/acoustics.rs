//! The acoustic model: resonant length to fundamental frequency and back,
//! and the fixed note table.
//!
//! Lengths are millipixels, frequencies millihertz.  With the scene scale of
//! 1300 pixels per meter and the speed of sound of 343 m/s, a closed
//! (stopped) pipe of length `L` millipixels sounds at
//! `343 * 1300 * 1000 * 1000 / (4 * L)` millihertz (the quarter-wavelength
//! fundamental), and an open pipe at twice that (the half-wavelength
//! fundamental).  All divisions round down.

use vstd::prelude::*;

verus! {

/// Speed of sound, m/s.
pub const SPEED: u64 = 343;

/// The scene scale: pixels per meter.
pub const PIXELS_PER_METER: u64 = 1_300;

/// `SPEED * PIXELS_PER_METER`, lifted to millipixel/millihertz units:
/// the numerator of every length/frequency conversion in this crate.
pub const ACOUSTIC_SCALE: u64 = 343 * 1_300 * 1_000 * 1_000;

/// Fundamental of a closed (stopped) pipe of `len` millipixels, in mHz.
pub open spec fn spec_closed_frequency(len: int) -> int {
    (ACOUSTIC_SCALE as int) / (4 * len)
}

/// Fundamental of an open pipe of `len` millipixels, in mHz.
pub open spec fn spec_open_frequency(len: int) -> int {
    (ACOUSTIC_SCALE as int) / (2 * len)
}

/// Fundamental of a pipe of `len` millipixels in the given mode, in mHz.
pub open spec fn spec_frequency(len: int, open: bool) -> int {
    if open {
        spec_open_frequency(len)
    } else {
        spec_closed_frequency(len)
    }
}

/// Length in millipixels of the closed pipe whose fundamental is `f` mHz.
pub open spec fn spec_length_for_frequency(f: int) -> int {
    (ACOUSTIC_SCALE as int) / (4 * f)
}

/// Fundamental of a closed pipe, in millihertz.
pub fn closed_frequency(len: i64) -> (r: u64)
    requires
        1 <= len <= crate::COORD_LIMIT,
    ensures
        r == spec_closed_frequency(len as int),
        r <= ACOUSTIC_SCALE / 4,
    {
    proof {
        vstd::arithmetic::div_mod::lemma_div_is_ordered_by_denominator(
            ACOUSTIC_SCALE as int,
            4int,
            4 * len,
        );
    }
    ACOUSTIC_SCALE / (4 * (len as u64))
}

/// Fundamental of an open pipe, in millihertz.
pub fn open_frequency(len: i64) -> (r: u64)
    requires
        1 <= len <= crate::COORD_LIMIT,
    ensures
        r == spec_open_frequency(len as int),
        r <= ACOUSTIC_SCALE / 2,
    {
    proof {
        vstd::arithmetic::div_mod::lemma_div_is_ordered_by_denominator(
            ACOUSTIC_SCALE as int,
            2int,
            2 * len,
        );
    }
    ACOUSTIC_SCALE / (2 * (len as u64))
}

/// Fundamental of a pipe in the given mode, in millihertz.
pub fn frequency_of(len: i64, open: bool) -> (r: u64)
    requires
        1 <= len <= crate::COORD_LIMIT,
    ensures
        r == spec_frequency(len as int, open),
        r <= ACOUSTIC_SCALE / 2,
{
    if open {
        open_frequency(len)
    } else {
        proof {
            vstd::arithmetic::div_mod::lemma_div_is_ordered_by_denominator(
                ACOUSTIC_SCALE as int,
                2int,
                4int,
            );
        }
        closed_frequency(len)
    }
}

/// Length in millipixels of the closed pipe that sounds at `f` millihertz.
pub fn length_for_frequency(f: u64) -> (r: i64)
    requires
        112 <= f <= 111_475_000_000,
    ensures
        r == spec_length_for_frequency(f as int),
        1 <= r <= crate::COORD_LIMIT,
{
    proof {
        vstd::arithmetic::div_mod::lemma_div_is_ordered_by_denominator(
            ACOUSTIC_SCALE as int,
            448int,
            4 * f,
        );
        vstd::arithmetic::div_mod::lemma_div_is_ordered_by_denominator(
            ACOUSTIC_SCALE as int,
            4 * f,
            445_900_000_000int,
        );
        vstd::arithmetic::div_mod::lemma_div_by_self(445_900_000_000int);
    }
    (ACOUSTIC_SCALE / (4 * f)) as i64
}

/// Exact-match note lookup: the fixed eight-entry table from C4 to C5,
/// keyed by the whole-hertz value of a frequency.  Frequencies between the
/// table entries have no name.
pub open spec fn spec_note_name(hz: int) -> Option<&'static str> {
    if hz == 261 {
        Some("C-4")
    } else if hz == 293 {
        Some("D-4")
    } else if hz == 329 {
        Some("E-4")
    } else if hz == 349 {
        Some("F-4")
    } else if hz == 391 {
        Some("G-4")
    } else if hz == 440 {
        Some("A-4")
    } else if hz == 493 {
        Some("B-4")
    } else if hz == 523 {
        Some("C-5")
    } else {
        None
    }
}

/// Look a whole-hertz frequency up in the note table.
pub fn note_name(hz: u64) -> (r: Option<&'static str>)
    ensures
        r == spec_note_name(hz as int),
{
    if hz == 261 {
        Some("C-4")
    } else if hz == 293 {
        Some("D-4")
    } else if hz == 329 {
        Some("E-4")
    } else if hz == 349 {
        Some("F-4")
    } else if hz == 391 {
        Some("G-4")
    } else if hz == 440 {
        Some("A-4")
    } else if hz == 493 {
        Some("B-4")
    } else if hz == 523 {
        Some("C-5")
    } else {
        None
    }
}

} // verus!

verus! {

/// Round trip: the length of the closed pipe that sounds at the
/// fundamental of a closed pipe of length `len` reproduces `len`, within
/// ten millipixels, for every length from the 10 px minimum up to 1000 px.
pub proof fn lemma_length_frequency_round_trip(len: int)
    requires
        10_000 <= len <= 1_000_000,
    ensures
        len <= spec_length_for_frequency(spec_closed_frequency(len)),
        spec_length_for_frequency(spec_closed_frequency(len)) <= len + 10,
{
    let a = ACOUSTIC_SCALE as int;
    let d = 4 * len;
    let f = a / d;
    vstd::arithmetic::div_mod::lemma_fundamental_div_mod(a, d);
    vstd::arithmetic::div_mod::lemma_mod_bound(a, d);
    let r1 = a % d;
    vstd::arithmetic::div_mod::lemma_div_is_ordered_by_denominator(a, d, 4_000_000);
    assert(445_900_000_000int == 4_000_000 * 111_475 + 0) by (nonlinear_arith);
    vstd::arithmetic::div_mod::lemma_fundamental_div_mod_converse(
        445_900_000_000int,
        4_000_000,
        111_475,
        0,
    );
    assert(f >= 111_475);
    let d2 = 4 * f;
    let rt = a / d2;
    // Lower bound: a >= d * f = d2 * len, so a / d2 >= len.
    assert(d * f == d2 * len) by (nonlinear_arith)
        requires
            d == 4 * len,
            d2 == 4 * f,
    ;
    assert(a >= d2 * len);
    vstd::arithmetic::div_mod::lemma_div_is_ordered(d2 * len, a, d2);
    vstd::arithmetic::div_mod::lemma_div_multiples_vanish(len, d2);
    assert(rt >= len);
    // Upper bound: a < d * f + d <= d2 * len + 4_904_900 <= d2 * (len + 11),
    // so a / d2 < len + 11.
    assert(d2 * (len + 11) == d2 * len + 44 * f) by (nonlinear_arith)
        requires
            d2 == 4 * f,
    ;
    assert(44 * f >= 44 * 111_475) by (nonlinear_arith)
        requires
            f >= 111_475,
    ;
    assert(a < d2 * (len + 11));
    vstd::arithmetic::div_mod::lemma_fundamental_div_mod(a, d2);
    vstd::arithmetic::div_mod::lemma_mod_bound(a, d2);
    if rt >= len + 11 {
        assert(d2 * rt >= d2 * (len + 11)) by (nonlinear_arith)
            requires
                d2 > 0,
                rt >= len + 11,
        ;
        assert(a >= d2 * rt);
        assert(false);
    }
}

} // verus!

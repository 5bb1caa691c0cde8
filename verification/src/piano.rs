//! The twelve-tone key naming: a key index maps to a pitch-class letter
//! cycling through a twelve-entry alphabet starting at A, with the octave
//! being the index divided by twelve.  This convention is independent of the
//! note table in the acoustics module and deliberately kept separate.

use vstd::prelude::*;

verus! {

/// The decimal digit `d` as a one-character string.
pub open spec fn spec_digit_str(d: int) -> &'static str {
    if d == 0 {
        "0"
    } else if d == 1 {
        "1"
    } else if d == 2 {
        "2"
    } else if d == 3 {
        "3"
    } else if d == 4 {
        "4"
    } else if d == 5 {
        "5"
    } else if d == 6 {
        "6"
    } else if d == 7 {
        "7"
    } else if d == 8 {
        "8"
    } else {
        "9"
    }
}

/// The decimal rendering of `n`, most significant digit first.
pub open spec fn spec_decimal(n: nat) -> Seq<char>
    decreases n,
{
    if n < 10 {
        spec_digit_str(n as int)@
    } else {
        spec_decimal(n / 10) + spec_digit_str((n % 10) as int)@
    }
}

/// The twelve pitch-class letters, indexed from 0 (A) to 11 (G#).
pub open spec fn spec_key_letter(i: int) -> &'static str {
    if i == 0 {
        "A"
    } else if i == 1 {
        "A#"
    } else if i == 2 {
        "B"
    } else if i == 3 {
        "C"
    } else if i == 4 {
        "C#"
    } else if i == 5 {
        "D"
    } else if i == 6 {
        "D#"
    } else if i == 7 {
        "E"
    } else if i == 8 {
        "F"
    } else if i == 9 {
        "F#"
    } else if i == 10 {
        "G"
    } else {
        "G#"
    }
}

/// The human-readable name of key `n`: its pitch-class letter followed by
/// its octave number.
pub open spec fn spec_human_key(n: nat) -> Seq<char> {
    spec_key_letter(n % 12 - 1)@ + spec_decimal(n / 12)
}

fn digit_str(d: u64) -> (r: &'static str)
    requires
        d < 10,
    ensures
        r == spec_digit_str(d as int),
{
    if d == 0 {
        "0"
    } else if d == 1 {
        "1"
    } else if d == 2 {
        "2"
    } else if d == 3 {
        "3"
    } else if d == 4 {
        "4"
    } else if d == 5 {
        "5"
    } else if d == 6 {
        "6"
    } else if d == 7 {
        "7"
    } else if d == 8 {
        "8"
    } else {
        "9"
    }
}

/// The decimal rendering of `n` as a string.
pub fn decimal_string(n: u64) -> (s: String)
    ensures
        s@ == spec_decimal(n as nat),
    decreases n,
{
    if n < 10 {
        String::from_str(digit_str(n))
    } else {
        let mut s = decimal_string(n / 10);
        s.append(digit_str(n % 10));
        s
    }
}

fn key_letter(i: usize) -> (r: &'static str)
    requires
        i < 12,
    ensures
        r == spec_key_letter(i as int),
{
    if i == 0 {
        "A"
    } else if i == 1 {
        "A#"
    } else if i == 2 {
        "B"
    } else if i == 3 {
        "C"
    } else if i == 4 {
        "C#"
    } else if i == 5 {
        "D"
    } else if i == 6 {
        "D#"
    } else if i == 7 {
        "E"
    } else if i == 8 {
        "F"
    } else if i == 9 {
        "F#"
    } else if i == 10 {
        "G"
    } else {
        "G#"
    }
}

/// The name of key `n`: pitch-class letter and octave.  Key indices whose
/// pitch class is zero modulo twelve have no letter and are excluded.
pub fn human_key(n: usize) -> (s: String)
    requires
        n % 12 >= 1,
    ensures
        s@ == spec_human_key(n as nat),
{
    let letter = key_letter(n % 12 - 1);
    let octave = n / 12;
    let mut s = String::from_str(letter);
    let tail = decimal_string(octave as u64);
    s.append(tail.as_str());
    s
}

} // verus!

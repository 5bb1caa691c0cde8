use panflute::acoustics::{
    closed_frequency, frequency_of, length_for_frequency, note_name, open_frequency,
};
use panflute::piano::{decimal_string, human_key};

#[test]
fn closed_pipe_fundamental_exact_values() {
    // 343 m/s, 1300 px/m: a 253.352 px closed pipe sounds at 440 Hz.
    assert_eq!(closed_frequency(253_352), 440_000);
    // A 10 px pipe (the minimum length).
    assert_eq!(closed_frequency(10_000), 11_147_500);
}

#[test]
fn open_pipe_doubles_the_closed_fundamental() {
    let len = length_for_frequency(440_000);
    assert_eq!(len, 253_352);
    let closed = closed_frequency(len);
    let open = open_frequency(len);
    assert_eq!(closed, 440_000);
    assert_eq!(open, 880_000);
    assert_eq!(open, 2 * closed);
    assert_eq!(frequency_of(len, false), closed);
    assert_eq!(frequency_of(len, true), open);
}

#[test]
fn length_frequency_round_trip_within_tolerance() {
    // The concrete face of the round-trip law.
    for len in [10_000i64, 50_000, 253_352, 500_000, 1_000_000] {
        let f = closed_frequency(len);
        let back = length_for_frequency(f);
        assert!(back >= len, "round trip shrank: {len} -> {back}");
        assert!(back <= len + 10, "round trip grew too far: {len} -> {back}");
    }
    // An exactly representable pair round-trips exactly.
    assert_eq!(length_for_frequency(closed_frequency(500_000)), 500_000);
}

#[test]
fn note_table_exact_matches_only() {
    assert_eq!(note_name(261), Some("C-4"));
    assert_eq!(note_name(293), Some("D-4"));
    assert_eq!(note_name(329), Some("E-4"));
    assert_eq!(note_name(349), Some("F-4"));
    assert_eq!(note_name(391), Some("G-4"));
    assert_eq!(note_name(440), Some("A-4"));
    assert_eq!(note_name(493), Some("B-4"));
    assert_eq!(note_name(523), Some("C-5"));
    assert_eq!(note_name(262), None);
    assert_eq!(note_name(0), None);
    assert_eq!(note_name(880), None);
}

#[test]
fn human_key_names() {
    assert_eq!(human_key(49), "A4");
    assert_eq!(human_key(50), "A#4");
    assert_eq!(human_key(51), "B4");
    assert_eq!(human_key(52), "C4");
    assert_eq!(human_key(61), "A5");
    assert_eq!(human_key(40), "C3");
    assert_eq!(human_key(1), "A0");
}

#[test]
fn decimal_rendering() {
    assert_eq!(decimal_string(0), "0");
    assert_eq!(decimal_string(7), "7");
    assert_eq!(decimal_string(10), "10");
    assert_eq!(decimal_string(12_345), "12345");
    assert_eq!(decimal_string(1_000_000), "1000000");
}

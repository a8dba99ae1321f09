use std::collections::HashSet;

use snowflake_rs::clock::{millis_from_parts, system_millis};
use snowflake_rs::generator::{BasicIDGenerator, IDGenerator};

#[test]
fn fresh_generator_hands_out_zero_first() {
    let mut g = BasicIDGenerator::new_at(5000, 0, 5000);
    assert_eq!(g.generate_at(5000), Some(0));
    assert_eq!(g.generate_at(5000), Some(1));
}

#[test]
fn exhaustion_after_4096_in_one_millisecond() {
    let mut g = BasicIDGenerator::new_at(0, 0, 100);
    let mut ok = 0;
    for _ in 0..4096 {
        if g.generate_at(100).is_some() {
            ok += 1;
        }
    }
    assert_eq!(ok, 4096);
    assert_eq!(g.generate_at(100), None);
    assert_eq!(g.generate_at(99), None);
    assert!(g.generate_at(101).is_some());
}

#[test]
fn window_after_exhaustion_resumes_past_boundary() {
    let mut g = BasicIDGenerator::new_at(0, 0, 100);
    for _ in 0..4096 {
        assert!(g.generate_at(100).is_some());
    }
    assert_eq!(g.generate_at(100), None);
    // The ring resumes just after the old boundary 4095, that is at 0.
    assert_eq!(g.generate_at(101), Some((101 << 22) | 0));
    let mut ok = 1;
    while g.generate_at(101).is_some() {
        ok += 1;
    }
    assert_eq!(ok, 4096);
}

#[test]
fn window_opened_while_active_stops_two_short() {
    let mut g = BasicIDGenerator::new_at(0, 0, 100);
    assert_eq!(g.generate_at(100), Some(100 << 22));
    // The new window starts at sequence 1 and stops at 1 + 4094.
    assert_eq!(g.generate_at(200), Some((200 << 22) | 1));
    let mut ok = 1;
    while g.generate_at(200).is_some() {
        ok += 1;
    }
    assert_eq!(ok, 4095);
    assert_eq!(g.generate_at(201), Some((201 << 22) | 0));
}

#[test]
fn clock_going_backwards_keeps_recorded_time() {
    let mut g = BasicIDGenerator::new_at(0, 0, 100);
    assert_eq!(g.generate_at(100), Some(100 << 22));
    assert_eq!(g.generate_at(50), Some((100 << 22) | 1));
}

#[test]
fn time_and_sequence_pairs_never_repeat() {
    let mut g = BasicIDGenerator::new_at(0, 0, 10);
    let mut seen = HashSet::new();
    let mut now = 10;
    for i in 0..20000 {
        if i % 3000 == 0 {
            now += 1;
        }
        if let Some(id) = g.generate_at(now) {
            assert!(seen.insert((id >> 22, id & 0xfff)));
        }
    }
    assert!(seen.len() > 10000);
}

#[test]
fn id_layout_overlaps_machine_and_sequence() {
    assert_eq!(BasicIDGenerator::id_from_parts(1000, 1005, 3, 4), (5 << 22) | 7);
    assert_eq!(BasicIDGenerator::id_from_parts(0, 1, 0x7ff, 0x1fff), (1 << 22) | 0xfff);
    assert_eq!(BasicIDGenerator::id_from_parts(10, 5, 0, 0), -5i64 << 22);
}

#[test]
fn relative_time_round_trips_through_high_bits() {
    let id = BasicIDGenerator::id_from_parts(1_262_304_000_000, 1_262_304_000_000 + 123_456_789, 1023, 4095);
    assert_eq!(id >> 22, 123_456_789);
    let top = (1i64 << 41) - 1;
    assert_eq!(BasicIDGenerator::id_from_parts(0, top, 5, 6) >> 22, top);
}

#[test]
fn generate_reads_the_clock() {
    let before = system_millis();
    let mut g = BasicIDGenerator::new(before, 7);
    let id = g.generate().unwrap();
    assert!(id >= 0);
    assert_eq!(id & 0xfff, 7);
    assert!(id >> 22 < 60_000);
}

#[test]
fn millis_from_clock_parts() {
    assert_eq!(millis_from_parts(1, 500_000_000), 1500);
    assert_eq!(millis_from_parts(0, 999_999_999), 999);
    assert_eq!(millis_from_parts(-2, 800_000_000), -1200);
    assert_eq!(millis_from_parts(i64::MAX, 0), i64::MAX);
    assert_eq!(millis_from_parts(i64::MIN, 0), i64::MIN);
    assert!(system_millis() > 1_262_304_000_000);
}

#[test]
fn machine_identity_shares_the_sequence_bits() {
    let mut g = BasicIDGenerator::new_at(0, 1, 100);
    let a = g.generate_at(100).unwrap();
    let b = g.generate_at(100).unwrap();
    assert_eq!(a, (100 << 22) | 1);
    assert_eq!(a, b);
    let mut h = BasicIDGenerator::new_at(0, 0, 100);
    assert_ne!(h.generate_at(100), h.generate_at(100));
}

use snowflake_rs::generator::{BasicIDGenerator, IDGenerator};
use snowflake_rs::multi_generator::MultiIDGenerator;

fn pool(epochs: &[i64], now: i64) -> MultiIDGenerator {
    let gens: Vec<BasicIDGenerator> = epochs.iter().map(|e| BasicIDGenerator::new_at(*e, 0, now)).collect();
    MultiIDGenerator::from_generators(gens)
}

#[test]
fn pool_counts_its_members() {
    assert_eq!(pool(&[0, 10, 20], 100).num_generators(), 3);
    assert_eq!(pool(&[0], 100).num_generators(), 1);
}

#[test]
fn pool_round_robin_in_ring_order() {
    // The epochs tell the members apart by the relative time of their ids.
    let mut p = pool(&[0, 10, 20], 100);
    let mut rel = Vec::new();
    for _ in 0..7 {
        rel.push(p.generate_at(100).unwrap() >> 22);
    }
    assert_eq!(rel, vec![100, 90, 80, 100, 90, 80, 100]);
}

#[test]
fn pool_masks_an_exhausted_member() {
    let mut p = pool(&[0, 10], 100);
    let mut ok = 0;
    while p.generate_at(100).is_some() {
        ok += 1;
    }
    assert_eq!(ok, 8192);
    assert_eq!(p.generate_at(100), None);
    assert!(p.generate_at(101).is_some());
}

#[test]
fn pool_skips_to_a_member_that_can_produce() {
    let mut a = BasicIDGenerator::new_at(0, 0, 100);
    for _ in 0..4096 {
        assert!(a.generate_at(100).is_some());
    }
    let b = BasicIDGenerator::new_at(10, 0, 100);
    let mut p = MultiIDGenerator::from_generators(vec![a, b]);
    assert_eq!(p.generate_at(100), Some(90 << 22));
    assert_eq!(p.generate_at(100), Some((90 << 22) | 1));
}

#[test]
fn pool_generate_reads_the_clock() {
    let mut p = MultiIDGenerator::from_generators(vec![BasicIDGenerator::new(0, 0)]);
    assert!(p.generate().is_some());
}

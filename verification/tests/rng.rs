use aegis::rng::Rng;
use aegis::sim::seed_for;

#[test]
fn deterministic_for_a_seed() {
    let mut a = Rng::new(12345);
    let mut b = Rng::new(12345);
    for _ in 0..1000 {
        assert_eq!(a.next_u64(), b.next_u64());
    }
}

#[test]
fn different_seeds_diverge() {
    let mut a = Rng::new(1);
    let mut b = Rng::new(2);
    let diffs = (0..100).filter(|_| a.next_u64() != b.next_u64()).count();
    assert!(diffs > 90, "streams should almost always differ");
}

#[test]
fn splitmix_reference_values_from_seed_zero() {
    let mut r = Rng::new(0);
    assert_eq!(r.next_u64(), 0xE220_A839_7B1D_CDAF);
    assert_eq!(r.next_u64(), 0x6E78_9E6A_A1B9_65F4);
    assert_eq!(r.next_u64(), 0x06C4_5D18_8009_454F);
}

#[test]
fn splitmix_reference_value_from_seed_12345() {
    let mut r = Rng::new(12345);
    assert_eq!(r.next_u64(), 0x2211_8258_A9D1_11A0);
}

#[test]
fn seed_for_matches_the_formula() {
    assert_eq!(seed_for(0, 0), 0xD1B5_4A32_D192_ED03);
    assert_eq!(seed_for(0x5151, 3), 0xAC5B_B75F_4F72_3013);
    assert_eq!(seed_for(5, 1), 0x6FEC_C3EC_50DD_691D);
}

#[test]
fn seed_for_gives_distinct_seeds_per_index() {
    let mut seen = std::collections::HashSet::new();
    for idx in 0..10_000usize {
        assert!(seen.insert(seed_for(0x5151, idx)), "duplicate seed at {idx}");
    }
}

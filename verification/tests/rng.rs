use yaay::rng::next_seed;

#[test]
fn next_seed_exact_values() {
    assert_eq!(next_seed(1), 1078337569);
    assert_eq!(next_seed(2), 2156675138);
    assert_eq!(next_seed(123456789), 1052692405);
    assert_eq!(next_seed(next_seed(1)), 67109889);
}

#[test]
fn next_seed_zero_is_fixed() {
    assert_eq!(next_seed(0), 0);
}

#[test]
fn next_seed_never_reaches_zero() {
    let mut s: u32 = 1;
    for _ in 0..10000 {
        s = next_seed(s);
        assert_ne!(s, 0);
    }
    for seed in [u32::MAX, 0x8000_0000, 42, 7] {
        assert_ne!(next_seed(seed), 0);
    }
}

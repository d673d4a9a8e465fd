use rig_it::tickets::{
    calculate_base_tickets, calculate_effective_tickets, calculate_rig_multiplier, integer_sqrt,
    RIG_MULTIPLIER_BASE, SCALE,
};

#[test]
fn test_integer_sqrt() {
    assert_eq!(integer_sqrt(0), 0);
    assert_eq!(integer_sqrt(1), 1);
    assert_eq!(integer_sqrt(4), 2);
    assert_eq!(integer_sqrt(9), 3);
    assert_eq!(integer_sqrt(16), 4);
    assert_eq!(integer_sqrt(1000000), 1000);
}

#[test]
fn test_base_tickets() {
    let tickets_1m = calculate_base_tickets(1_000_000);
    assert!(tickets_1m > 0);

    let tickets_1sol = calculate_base_tickets(1_000_000_000);
    assert!(tickets_1sol > tickets_1m);

    // Sublinear: a 100x deposit gives ~10x tickets.
    let tickets_small = calculate_base_tickets(1_000_000);
    let tickets_large = calculate_base_tickets(100_000_000);
    assert!(tickets_large <= tickets_small * 11);
    assert!(tickets_large >= tickets_small * 9);
}

#[test]
fn test_rig_multiplier() {
    let mult_0 = calculate_rig_multiplier(0);
    assert_eq!(mult_0, SCALE);

    let mult_1rig = calculate_rig_multiplier(RIG_MULTIPLIER_BASE);
    assert!(mult_1rig > SCALE);
    assert!(mult_1rig <= SCALE * 2);

    let mult_huge = calculate_rig_multiplier(u64::MAX);
    assert!(mult_huge <= SCALE * 3);
}

#[test]
fn test_base_tickets_zero_and_monotone() {
    assert_eq!(calculate_base_tickets(0), 0);
    let mut prev = 0u128;
    for amount in [1u64, 10, 999, 1_000_000, 5_000_000, 1_000_000_000, u64::MAX] {
        let t = calculate_base_tickets(amount);
        assert!(t >= prev);
        prev = t;
    }
}

#[test]
fn test_integer_sqrt_brackets_its_argument() {
    for n in [2u128, 3, 5, 99, 123_456_789, 10_000_000_019, u64::MAX as u128, u128::MAX] {
        let r = integer_sqrt(n);
        assert!(r.checked_mul(r).map(|sq| sq <= n).unwrap_or(false));
        match (r + 1).checked_mul(r + 1) {
            Some(sq) => assert!(n < sq),
            None => {} // (r+1)^2 exceeds u128, so n < (r+1)^2 trivially
        }
    }
}

#[test]
fn test_effective_tickets_unit_scenario() {
    // amount 1_000_000, no loyalty balance: base tickets 1_000_000,
    // multiplier 1.0x, so exactly 1_000_000 effective tickets.
    assert_eq!(calculate_base_tickets(1_000_000), 1_000_000);
    assert_eq!(calculate_rig_multiplier(0), 1_000_000);
    assert_eq!(calculate_effective_tickets(1_000_000, 0), 1_000_000);
}

#[test]
fn test_effective_tickets_with_multiplier() {
    // One whole loyalty unit: bonus sqrt(1 * SCALE) = 1000, so the
    // multiplier is 1.001x.
    let mult = calculate_rig_multiplier(RIG_MULTIPLIER_BASE);
    assert_eq!(mult, SCALE + 1000);
    assert_eq!(
        calculate_effective_tickets(1_000_000, RIG_MULTIPLIER_BASE),
        1_001_000
    );

    // The bonus caps at 2.0x, for a 3.0x total.
    assert_eq!(calculate_rig_multiplier(u64::MAX), 3 * SCALE);
    assert_eq!(
        calculate_effective_tickets(1_000_000, u64::MAX),
        3_000_000
    );
}

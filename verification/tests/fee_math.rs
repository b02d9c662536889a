use clmm_liquidity::fee_math::{
    calculate_latest_token_fees, checked_latest_token_fees, mul_div_floor_q64, wrapping_growth,
    Q64,
};

#[test]
fn q64_is_two_to_the_64() {
    assert_eq!(Q64, 1u128 << 64);
}

#[test]
fn one_unit_of_growth_on_five_liquidity() {
    assert_eq!(calculate_latest_token_fees(1000, 0, 1u128 << 64, 5), 1005);
    assert_eq!(checked_latest_token_fees(1000, 0, 1u128 << 64, 5), Some(1005));
}

#[test]
fn fees_never_decrease_without_wrap() {
    let cases: Vec<(u64, u128, u128, u128)> = vec![
        (0, 0, 0, 0),
        (7, 10, 10, 1u128 << 70),
        (7, 10, 11, 1),
        (7, 10, 11, 1u128 << 64),
        (1000, 5, 1u128 << 64, 3),
        (u64::MAX - 10, 0, 1u128 << 64, 10),
        (12, 1u128 << 100, (1u128 << 100) + (1u128 << 40), 1u128 << 30),
    ];
    for (last_total, last, latest, liquidity) in cases {
        assert!(latest >= last);
        let fees = calculate_latest_token_fees(last_total, last, latest, liquidity);
        assert!(fees >= last_total);
    }
}

#[test]
fn growth_is_taken_modulo_two_to_the_128() {
    // The counter stood 6 short of wrapping and now stands at 10: it grew by 16.
    let last = u128::MAX - 5;
    let latest = 10u128;
    let liquidity = 3 * (1u128 << 63);
    assert_eq!(calculate_latest_token_fees(100, last, latest, liquidity), 124);
    // The same growth without a wrap in between gives the same amount.
    assert_eq!(calculate_latest_token_fees(100, 1000, 1016, liquidity), 124);
    assert_eq!(checked_latest_token_fees(100, last, latest, liquidity), Some(124));
}

#[test]
fn wrap_at_the_very_boundary() {
    // From the largest reading to 0 the counter grew by exactly 1.
    assert_eq!(calculate_latest_token_fees(0, u128::MAX, 0, 1u128 << 64), 1);
    assert_eq!(calculate_latest_token_fees(0, u128::MAX, 0, (1u128 << 64) - 1), 0);
    // From 1 back to 0 it grew by 2^128 - 1.
    assert_eq!(calculate_latest_token_fees(0, 1, 0, 1), u64::MAX);
}

#[test]
fn zero_liquidity_earns_nothing() {
    for (last, latest) in [(0u128, 0u128), (0, u128::MAX), (u128::MAX, 0), (5, 1u128 << 64), (77, 3)] {
        assert_eq!(calculate_latest_token_fees(1000, last, latest, 0), 1000);
        assert_eq!(calculate_latest_token_fees(u64::MAX, last, latest, 0), u64::MAX);
        assert_eq!(checked_latest_token_fees(0, last, latest, 0), Some(0));
    }
}

#[test]
fn no_growth_earns_nothing() {
    for growth in [0u128, 1, 1u128 << 64, u128::MAX] {
        assert_eq!(calculate_latest_token_fees(42, growth, growth, u128::MAX), 42);
    }
}

#[test]
fn the_amount_is_rounded_down() {
    // 1.5 rounds to 1.
    assert_eq!(calculate_latest_token_fees(0, 0, 3, 1u128 << 63), 1);
    // Just under 1 rounds to 0.
    assert_eq!(calculate_latest_token_fees(9, 0, 1, (1u128 << 64) - 1), 9);
    assert_eq!(calculate_latest_token_fees(9, 0, (1u128 << 64) - 1, 1), 9);
    // 10.5 rounds to 10.
    assert_eq!(calculate_latest_token_fees(0, 0, 3 * (1u128 << 63), 7), 10);
}

#[test]
fn exact_amount_of_a_large_product() {
    let growth: u128 = 1234567890123456789012;
    let liquidity: u128 = 9876543;
    assert_eq!(calculate_latest_token_fees(5, 0, growth, liquidity), 660998103 + 5);
    assert_eq!(calculate_latest_token_fees(5, 17, growth + 17, liquidity), 660998103 + 5);
}

#[test]
fn checked_fees_report_overflow() {
    // The credit alone fits, the total does not.
    assert_eq!(checked_latest_token_fees(u64::MAX, 0, 1u128 << 64, 1), None);
    assert_eq!(checked_latest_token_fees(u64::MAX - 4, 0, 1u128 << 64, 5), None);
    assert_eq!(checked_latest_token_fees(u64::MAX - 5, 0, 1u128 << 64, 5), Some(u64::MAX));
    // The credit alone needs more than 64 bits.
    assert_eq!(checked_latest_token_fees(0, 0, 1u128 << 64, 1u128 << 64), None);
    // The quotient alone needs more than 128 bits.
    assert_eq!(checked_latest_token_fees(0, 0, u128::MAX, u128::MAX), None);
    // The largest credit that fits.
    assert_eq!(checked_latest_token_fees(0, 0, u128::MAX, 1), Some(u64::MAX));
    assert_eq!(checked_latest_token_fees(1, 0, u128::MAX, 1), None);
}

#[test]
fn full_width_quotient() {
    assert_eq!(mul_div_floor_q64(0, u128::MAX), Some(0));
    assert_eq!(mul_div_floor_q64(u128::MAX, 0), Some(0));
    assert_eq!(mul_div_floor_q64(1u128 << 64, 1u128 << 64), Some(1u128 << 64));
    assert_eq!(mul_div_floor_q64(u128::MAX, 1u128 << 64), Some(u128::MAX));
    assert_eq!(mul_div_floor_q64(1u128 << 64, u128::MAX), Some(u128::MAX));
    assert_eq!(mul_div_floor_q64(u128::MAX, (1u128 << 64) + 1), None);
    assert_eq!(mul_div_floor_q64(u128::MAX, u128::MAX), None);
    assert_eq!(mul_div_floor_q64(1u128 << 127, 1u128 << 65), None);
    assert_eq!(mul_div_floor_q64(1u128 << 127, 1u128 << 64), Some(1u128 << 127));
    assert_eq!(
        mul_div_floor_q64((1u128 << 64) + 1, (1u128 << 64) - 1),
        Some((1u128 << 64) - 1)
    );
    assert_eq!(
        mul_div_floor_q64(0x0123456789abcdef_fedcba9876543210, 0x21_0123456789abcdef),
        Some(0x258d3dbf9b59829cb83be9b07f44f073)
    );
    assert_eq!(
        mul_div_floor_q64(0xffffffff_ffffffffffffffff, 0x1_8000000000000000),
        Some(0x17ffffffffffffffffffffffe)
    );
}

#[test]
fn growth_between_readings_wraps() {
    assert_eq!(wrapping_growth(0, 0), 0);
    assert_eq!(wrapping_growth(5, 12), 7);
    assert_eq!(wrapping_growth(0, u128::MAX), u128::MAX);
    assert_eq!(wrapping_growth(u128::MAX, 0), 1);
    assert_eq!(wrapping_growth(u128::MAX - 5, 10), 16);
    assert_eq!(wrapping_growth(12, 5), u128::MAX - 6);
    assert_eq!(wrapping_growth(1u128 << 127, 0), 1u128 << 127);
}

#[test]
fn more_liquidity_earns_no_less() {
    let growth = 3 * (1u128 << 63);
    let mut earned_before = 0u64;
    for liquidity in [0u128, 1, 2, 3, 10, 11, 1_000, 1u128 << 40] {
        let earned = calculate_latest_token_fees(0, 7, 7 + growth, liquidity);
        assert!(earned >= earned_before);
        earned_before = earned;
    }
    assert_eq!(calculate_latest_token_fees(0, 7, 7 + growth, 10), 15);
    assert_eq!(calculate_latest_token_fees(0, 7, 7 + growth, 60), 90);
}

#[test]
fn the_amount_never_exceeds_the_exact_share() {
    for (growth, liquidity) in [(1u128, 1u128), (3, 1u128 << 63), (1u128 << 64, 5), (12345, 1u128 << 70)] {
        let amount = calculate_latest_token_fees(0, 0, growth, liquidity) as u128;
        assert!(amount * (1u128 << 64) <= growth * liquidity);
        assert!(growth * liquidity < (amount + 1) * (1u128 << 64));
    }
}

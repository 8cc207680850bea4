use fund_accounting::decimal::Decimal;
use fund_accounting::lp_actions::oracle_price::get_oracle_price;

fn raw(r: u128) -> Decimal {
    Decimal::from_raw([r as u64, (r >> 64) as u64, 0, 0], 1).unwrap()
}

/// The limbs of `10^n`, by repeated multiplication in base `2^64`.
fn ten_to(n: u32) -> [u64; 4] {
    let mut limbs = [1u64, 0, 0, 0];
    for _ in 0..n {
        let mut carry: u128 = 0;
        for limb in limbs.iter_mut() {
            let v = (*limb as u128) * 10 + carry;
            *limb = v as u64;
            carry = v >> 64;
        }
        assert_eq!(carry, 0);
    }
    limbs
}

#[test]
fn whole_number_has_eighteen_fractional_digits() {
    let one = Decimal::from_u128(1);
    assert_eq!(one.raw_limbs(), [1_000_000_000_000_000_000, 0, 0, 0]);
    assert_eq!(one.raw_sign(), 1);
}

#[test]
fn largest_whole_number_spans_three_limbs() {
    let big = Decimal::from_u128(u128::MAX);
    // (2^128 - 1) * 10^18
    let mut expected = [u64::MAX, u64::MAX, 0, 0];
    let mut carry: u128 = 0;
    for limb in expected.iter_mut() {
        let v = (*limb as u128) * 1_000_000_000_000_000_000 + carry;
        *limb = v as u64;
        carry = v >> 64;
    }
    assert_eq!(big.raw_limbs(), expected);
    assert_eq!(big.raw_sign(), 1);
}

#[test]
fn zero_is_positive_zero() {
    assert_eq!(Decimal::zero(), Decimal::from_u128(0));
    assert_eq!(Decimal::zero().raw_limbs(), [0, 0, 0, 0]);
    assert_eq!(Decimal::zero().raw_sign(), 1);
}

#[test]
fn from_raw_takes_only_sign_bytes_zero_and_one() {
    assert!(Decimal::from_raw([5, 0, 0, 0], 0).is_some());
    assert!(Decimal::from_raw([5, 0, 0, 0], 1).is_some());
    assert!(Decimal::from_raw([5, 0, 0, 0], 2).is_none());
    assert!(Decimal::from_raw([5, 0, 0, 0], -1).is_none());
    let d = Decimal::from_raw([5, 6, 7, 8], 0).unwrap();
    assert_eq!(d.raw_limbs(), [5, 6, 7, 8]);
    assert_eq!(d.raw_sign(), 0);
}

#[test]
fn equal_precisions_leave_the_price() {
    let price = raw(2_000_000_000_000_000_000);
    assert_eq!(get_oracle_price(price, 6, 6), price);
}

#[test]
fn finer_base_asset_lowers_the_price() {
    // 2.0 * 10^(6 - 18) = 0.000000000002
    let price = raw(2_000_000_000_000_000_000);
    assert_eq!(get_oracle_price(price, 18, 6), raw(2_000_000));
}

#[test]
fn finer_quote_asset_raises_the_price() {
    // 2.5 * 10^(8 - 6) = 250
    let price = raw(2_500_000_000_000_000_000);
    assert_eq!(get_oracle_price(price, 6, 8), Decimal::from_u128(250));
}

#[test]
fn price_is_cut_to_eighteen_digits() {
    // 0.000000000000000123 * 10^-2 is cut to 0.000000000000000001
    assert_eq!(get_oracle_price(raw(123), 2, 0), raw(1));
    // and * 10^-3 to zero
    assert_eq!(get_oracle_price(raw(123), 3, 0), Decimal::zero());
}

#[test]
fn powers_of_ten_are_exact_over_the_whole_range() {
    let one = Decimal::from_u128(1);
    for gap in 0u32..=59 {
        let up = get_oracle_price(one, 0, gap as u64);
        assert_eq!(up.raw_limbs(), ten_to(18 + gap), "10^{}", gap);
        assert_eq!(up.raw_sign(), 1);
    }
    for gap in 1u32..=18 {
        let down = get_oracle_price(one, gap as u64, 0);
        assert_eq!(down.raw_limbs(), ten_to(18 - gap), "10^-{}", gap);
        assert_eq!(down.raw_sign(), 1);
    }
    for gap in [19u64, 20, 59, 60, 1000, u64::MAX] {
        assert_eq!(get_oracle_price(one, gap, 0), Decimal::zero(), "10^-{}", gap);
    }
}

#[test]
fn largest_price_survives_equal_precisions() {
    let max = Decimal::from_raw([u64::MAX; 4], 1).unwrap();
    assert_eq!(get_oracle_price(max, 6, 6), max);
    let lowest = Decimal::from_raw([u64::MAX; 4], 0).unwrap();
    assert_eq!(get_oracle_price(lowest, 9, 9), lowest);
}

#[test]
fn largest_power_of_ten_takes_the_smallest_price() {
    // 0.000000000000000001 * 10^59 = 10^41
    assert_eq!(get_oracle_price(raw(1), 0, 59).raw_limbs(), ten_to(59));
    // 1.15 * 10^59 needs all of the 256 bits
    let top = get_oracle_price(raw(1_150_000_000_000_000_000), 0, 59);
    let mut expected = ten_to(75);
    let mut carry: u128 = 0;
    for limb in expected.iter_mut() {
        let v = (*limb as u128) * 115 + carry;
        *limb = v as u64;
        carry = v >> 64;
    }
    assert_eq!(carry, 0);
    assert!(expected[3] >= 1 << 63);
    assert_eq!(top.raw_limbs(), expected);
}

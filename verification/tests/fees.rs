use options_escrow::{compute_fee, deduct_fee, ErrorCode, FeeSplit, BASIS_POINTS};

#[test]
fn fee_is_five_per_cent_of_ten_thousand() {
    assert_eq!(compute_fee(10_000, 500), Ok(500));
    assert_eq!(deduct_fee(10_000, 500), Ok(FeeSplit { fee: 500, remainder: 9_500 }));
}

#[test]
fn fee_rounds_down() {
    assert_eq!(compute_fee(999, 1), Ok(0));
    assert_eq!(compute_fee(9_999, 1), Ok(0));
    assert_eq!(compute_fee(10_000, 1), Ok(1));
    assert_eq!(compute_fee(19_999, 1), Ok(1));
    assert_eq!(compute_fee(3, 3_333), Ok(0));
    assert_eq!(compute_fee(3, 3_334), Ok(1));
    assert_eq!(deduct_fee(19_999, 1), Ok(FeeSplit { fee: 1, remainder: 19_998 }));
}

#[test]
fn zero_rate_and_zero_amount_cost_nothing() {
    assert_eq!(compute_fee(123_456, 0), Ok(0));
    assert_eq!(compute_fee(0, 500), Ok(0));
    assert_eq!(deduct_fee(123_456, 0), Ok(FeeSplit { fee: 0, remainder: 123_456 }));
    assert_eq!(deduct_fee(0, 10_000), Ok(FeeSplit { fee: 0, remainder: 0 }));
    assert_eq!(deduct_fee(0, u64::MAX), Ok(FeeSplit { fee: 0, remainder: 0 }));
}

#[test]
fn full_rate_takes_everything() {
    assert_eq!(BASIS_POINTS, 10_000);
    assert_eq!(compute_fee(777, BASIS_POINTS), Ok(777));
    assert_eq!(deduct_fee(777, BASIS_POINTS), Ok(FeeSplit { fee: 777, remainder: 0 }));
    assert_eq!(compute_fee(u64::MAX, BASIS_POINTS), Ok(u64::MAX));
    assert_eq!(deduct_fee(u64::MAX, BASIS_POINTS), Ok(FeeSplit { fee: u64::MAX, remainder: 0 }));
}

#[test]
fn product_beyond_64_bits_is_exact() {
    // 2^63 * 5000 / 10000 = 2^62
    assert_eq!(compute_fee(1 << 63, 5_000), Ok(1 << 62));
    assert_eq!(
        deduct_fee(u64::MAX, 1),
        Ok(FeeSplit { fee: 1_844_674_407_370_955, remainder: u64::MAX - 1_844_674_407_370_955 })
    );
    assert_eq!(compute_fee(u64::MAX, 9_999), Ok(18_444_899_399_302_180_659));
}

#[test]
fn fee_and_remainder_make_up_the_amount() {
    let amounts: [u64; 7] = [0, 1, 2, 9_999, 10_000, 1_000_000_007, u64::MAX];
    let rates: [u64; 8] = [0, 1, 2, 499, 500, 5_000, 9_999, 10_000];
    for amount in amounts {
        for rate in rates {
            let split = deduct_fee(amount, rate).unwrap();
            assert_eq!(split.fee as u128, amount as u128 * rate as u128 / 10_000);
            assert!(split.fee <= amount);
            assert_eq!(split.fee as u128 + split.remainder as u128, amount as u128);
            assert_eq!(compute_fee(amount, rate), Ok(split.fee));
        }
    }
}

#[test]
fn rate_above_full_can_exceed_the_amount() {
    // The fee alone is still computed: 20000 basis points of 100 is 200.
    assert_eq!(compute_fee(100, 20_000), Ok(200));
    assert_eq!(deduct_fee(100, 20_000), Err(ErrorCode::ArithmeticError));
    assert_eq!(deduct_fee(10_000, 10_001), Err(ErrorCode::ArithmeticError));
    // Rounding down can keep a small fee within the amount.
    assert_eq!(deduct_fee(9_999, 10_001), Ok(FeeSplit { fee: 9_999, remainder: 0 }));
    assert_eq!(deduct_fee(1, 19_999), Ok(FeeSplit { fee: 1, remainder: 0 }));
}

#[test]
fn fee_that_does_not_fit_is_refused() {
    assert_eq!(compute_fee(u64::MAX, u64::MAX), Err(ErrorCode::ArithmeticError));
    assert_eq!(deduct_fee(u64::MAX, u64::MAX), Err(ErrorCode::ArithmeticError));
    assert_eq!(compute_fee(u64::MAX, 10_001), Err(ErrorCode::ArithmeticError));
    // The largest rate at which the fee on 2^63 still fits: 19999.
    assert_eq!(compute_fee(1 << 63, 19_999), Ok(18_445_821_736_505_866_138));
    assert_eq!(compute_fee(1 << 63, 20_000), Err(ErrorCode::ArithmeticError));
}

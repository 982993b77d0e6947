use privacy_contracts::money::{
    calculate_output_amount, first_liquidity, integer_sqrt, split_fee, subsequent_liquidity,
    withdrawal_amount,
};
use privacy_contracts::confidential_swap::ErrorCode;

#[test]
fn integer_sqrt_of_small_numbers() {
    assert_eq!(integer_sqrt(0), 0);
    assert_eq!(integer_sqrt(1), 1);
    assert_eq!(integer_sqrt(2), 1);
    assert_eq!(integer_sqrt(3), 1);
    assert_eq!(integer_sqrt(4), 2);
    assert_eq!(integer_sqrt(15), 3);
    assert_eq!(integer_sqrt(16), 4);
    assert_eq!(integer_sqrt(17), 4);
    assert_eq!(integer_sqrt(99), 9);
    assert_eq!(integer_sqrt(100), 10);
}

#[test]
fn integer_sqrt_rounds_down_around_perfect_squares() {
    let root: u128 = 1_000_000_007;
    assert_eq!(integer_sqrt(root * root - 1), 1_000_000_006);
    assert_eq!(integer_sqrt(root * root), 1_000_000_007);
    assert_eq!(integer_sqrt(root * root + 1), 1_000_000_007);
}

#[test]
fn integer_sqrt_of_the_largest_numbers() {
    assert_eq!(integer_sqrt(u128::MAX), u64::MAX);
    let max: u128 = u64::MAX as u128;
    assert_eq!(integer_sqrt(max * max), u64::MAX);
    assert_eq!(integer_sqrt(max * max - 1), u64::MAX - 1);
}

#[test]
fn split_fee_takes_basis_points_rounded_down() {
    assert_eq!(split_fee(10_000, 30), Some((30, 9_970)));
    assert_eq!(split_fee(1_000, 30), Some((3, 997)));
    assert_eq!(split_fee(333, 30), Some((0, 333)));
    assert_eq!(split_fee(100, 0), Some((0, 100)));
    assert_eq!(split_fee(0, 65_535), Some((0, 0)));
    assert_eq!(split_fee(u64::MAX, 1_000), Some((1_844_674_407_370_955_161, 16_602_069_666_338_596_454)));
}

#[test]
fn split_fee_of_the_whole_leaves_nothing() {
    assert_eq!(split_fee(500, 10_000), Some((500, 0)));
}

#[test]
fn split_fee_rejects_a_fee_above_the_amount() {
    assert_eq!(split_fee(1, 20_000), None);
    assert_eq!(split_fee(u64::MAX, 10_001), None);
    // 3 * 13333 / 10000 = 3, which still fits
    assert_eq!(split_fee(3, 13_333), Some((3, 0)));
    assert_eq!(split_fee(3, 13_334), None);
}

#[test]
fn first_liquidity_is_geometric_mean_less_minimum() {
    assert_eq!(first_liquidity(10_000, 10_000), Ok(9_000));
    assert_eq!(first_liquidity(4_000_000, 1_000_000), Ok(1_999_000));
    assert_eq!(first_liquidity(2_000, 3_000), Ok(1_449));
}

#[test]
fn first_liquidity_needs_more_than_the_minimum() {
    assert_eq!(first_liquidity(1_000, 1_000), Err(ErrorCode::InsufficientLiquidity));
    assert_eq!(first_liquidity(999, 999), Err(ErrorCode::InsufficientLiquidity));
    assert_eq!(first_liquidity(0, u64::MAX), Err(ErrorCode::InsufficientLiquidity));
    assert_eq!(first_liquidity(1_001, 1_001), Ok(1));
    // sqrt(1000 * 1002) = 1000.99..., which rounds down to the minimum
    assert_eq!(first_liquidity(1_000, 1_002), Err(ErrorCode::InsufficientLiquidity));
}

#[test]
fn first_liquidity_of_the_largest_amounts() {
    assert_eq!(first_liquidity(u64::MAX, u64::MAX), Ok(u64::MAX - 1_000));
}

#[test]
fn subsequent_liquidity_is_the_smaller_share() {
    assert_eq!(subsequent_liquidity(100, 200, 1_000, 1_000, 2_000), Ok(100));
    assert_eq!(subsequent_liquidity(100, 100, 1_000, 1_000, 2_000), Ok(50));
    assert_eq!(subsequent_liquidity(300, 200, 1_000, 1_000, 2_000), Ok(100));
    assert_eq!(subsequent_liquidity(7, 7, 10, 3, 4), Ok(17));
}

#[test]
fn subsequent_liquidity_rejects_an_empty_reserve() {
    assert_eq!(subsequent_liquidity(100, 200, 1_000, 0, 2_000), Err(ErrorCode::ArithmeticOverflow));
    assert_eq!(subsequent_liquidity(100, 200, 1_000, 1_000, 0), Err(ErrorCode::ArithmeticOverflow));
    assert_eq!(subsequent_liquidity(0, 0, 1_000, 0, 0), Err(ErrorCode::ArithmeticOverflow));
}

#[test]
fn subsequent_liquidity_rejects_a_share_of_zero() {
    assert_eq!(subsequent_liquidity(0, 200, 1_000, 1_000, 2_000), Err(ErrorCode::InsufficientLiquidity));
    assert_eq!(subsequent_liquidity(1, 1, 1, 2, 2), Err(ErrorCode::InsufficientLiquidity));
}

#[test]
fn subsequent_liquidity_rejects_a_share_beyond_64_bits() {
    assert_eq!(
        subsequent_liquidity(u64::MAX, u64::MAX, 2, 1, 1),
        Err(ErrorCode::ArithmeticOverflow)
    );
    assert_eq!(subsequent_liquidity(u64::MAX, u64::MAX, 1, 1, 1), Ok(u64::MAX));
}

#[test]
fn output_follows_the_constant_product_curve() {
    assert_eq!(calculate_output_amount(100, 1_000, 1_000), Ok(90));
    assert_eq!(calculate_output_amount(1_000, 1_000, 1_000), Ok(499));
    assert_eq!(calculate_output_amount(1, 1_000, 1_000), Ok(0));
    assert_eq!(calculate_output_amount(0, 1_000, 1_000), Ok(0));
    assert_eq!(calculate_output_amount(100, 1_000, 0), Ok(0));
    assert_eq!(calculate_output_amount(10_000, 50_000, 20_000), Ok(3_324));
}

#[test]
fn output_against_an_empty_input_reserve_is_the_whole_output_reserve() {
    assert_eq!(calculate_output_amount(5, 0, 1_000), Ok(1_000));
}

#[test]
fn output_rejects_a_zero_denominator() {
    assert_eq!(calculate_output_amount(0, 0, 1_000), Err(ErrorCode::ArithmeticOverflow));
}

#[test]
fn output_rejects_a_product_beyond_128_bits() {
    assert_eq!(
        calculate_output_amount(u64::MAX, u64::MAX, u64::MAX),
        Err(ErrorCode::ArithmeticOverflow)
    );
    // 2^54 * 997 * 2^64 < 2^128
    assert_eq!(
        calculate_output_amount(1 << 54, 1 << 54, u64::MAX),
        Ok(9_209_516_195_036_766_630)
    );
}

#[test]
fn withdrawal_is_pro_rata() {
    assert_eq!(withdrawal_amount(100, 2_000, 1_000), Ok(200));
    assert_eq!(withdrawal_amount(1, 3, 2), Ok(1));
    assert_eq!(withdrawal_amount(0, 3, 2), Ok(0));
    assert_eq!(withdrawal_amount(1_000, 12_345, 1_000), Ok(12_345));
}

#[test]
fn withdrawal_rejects_an_empty_supply() {
    assert_eq!(withdrawal_amount(0, 0, 0), Err(ErrorCode::ArithmeticOverflow));
    assert_eq!(withdrawal_amount(5, 10, 0), Err(ErrorCode::ArithmeticOverflow));
}

#[test]
fn withdrawal_rejects_an_amount_beyond_64_bits() {
    assert_eq!(withdrawal_amount(u64::MAX, 2, 1), Err(ErrorCode::ArithmeticOverflow));
    assert_eq!(withdrawal_amount(u64::MAX, 1, 1), Ok(u64::MAX));
}

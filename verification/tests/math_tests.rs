use season_vault::{
    lamports_to_pool_tokens_ceil, pool_tokens_to_lamports_floor, yield_share_floor, ErrorCode,
    ExchangeRate,
};

fn rate(total_lamports: u64, pool_token_supply: u64) -> ExchangeRate {
    ExchangeRate { total_lamports, pool_token_supply }
}

#[test]
fn pool_tokens_are_valued_at_the_rate() {
    assert_eq!(pool_tokens_to_lamports_floor(1_000_000, &rate(1_050_000, 1_000_000)), Ok(1_050_000));
    assert_eq!(pool_tokens_to_lamports_floor(500, &rate(3_000, 1_000)), Ok(1_500));
    assert_eq!(pool_tokens_to_lamports_floor(0, &rate(3_000, 1_000)), Ok(0));
}

#[test]
fn pool_tokens_to_lamports_rounds_down() {
    assert_eq!(pool_tokens_to_lamports_floor(10, &rate(10, 3)), Ok(33));
    assert_eq!(pool_tokens_to_lamports_floor(1, &rate(2, 3)), Ok(0));
    assert_eq!(pool_tokens_to_lamports_floor(7, &rate(5, 6)), Ok(5));
}

#[test]
fn pool_without_supply_has_no_rate() {
    assert_eq!(
        pool_tokens_to_lamports_floor(10, &rate(10, 0)),
        Err(ErrorCode::InvalidExchangeRate)
    );
    assert_eq!(
        pool_tokens_to_lamports_floor(0, &rate(0, 0)),
        Err(ErrorCode::InvalidExchangeRate)
    );
}

#[test]
fn pool_tokens_to_lamports_uses_wide_product() {
    assert_eq!(
        pool_tokens_to_lamports_floor(u64::MAX, &rate(u64::MAX, u64::MAX)),
        Ok(u64::MAX)
    );
    assert_eq!(
        pool_tokens_to_lamports_floor(1 << 40, &rate(1 << 40, 1 << 20)),
        Ok(1 << 60)
    );
}

#[test]
fn worth_beyond_64_bits_is_an_overflow() {
    assert_eq!(
        pool_tokens_to_lamports_floor(u64::MAX, &rate(u64::MAX, 1)),
        Err(ErrorCode::MathOverflow)
    );
    assert_eq!(
        pool_tokens_to_lamports_floor(1 << 40, &rate(1 << 40, 1 << 16)),
        Err(ErrorCode::MathOverflow)
    );
    assert_eq!(
        pool_tokens_to_lamports_floor(1 << 40, &rate(1 << 40, (1 << 16) + 1)),
        Ok(((1u128 << 80) / ((1u128 << 16) + 1)) as u64)
    );
}

#[test]
fn lamports_to_pool_tokens_rounds_up() {
    assert_eq!(lamports_to_pool_tokens_ceil(10, 3, 1), Ok(4));
    assert_eq!(lamports_to_pool_tokens_ceil(9, 3, 1), Ok(3));
    assert_eq!(lamports_to_pool_tokens_ceil(1, 1_000_000, 1), Ok(1));
    assert_eq!(lamports_to_pool_tokens_ceil(1_000_000, 1_050_000, 1_000_000), Ok(952_381));
    assert_eq!(lamports_to_pool_tokens_ceil(1_050_000, 1_050_000, 1_000_000), Ok(1_000_000));
}

#[test]
fn no_lamports_are_no_pool_tokens_at_any_rate() {
    assert_eq!(lamports_to_pool_tokens_ceil(0, 5, 7), Ok(0));
    assert_eq!(lamports_to_pool_tokens_ceil(0, 0, 7), Ok(0));
    assert_eq!(lamports_to_pool_tokens_ceil(0, 5, 0), Ok(0));
    assert_eq!(lamports_to_pool_tokens_ceil(0, 0, 0), Ok(0));
}

#[test]
fn snapshot_with_a_zero_side_has_no_rate() {
    assert_eq!(lamports_to_pool_tokens_ceil(1, 0, 7), Err(ErrorCode::InvalidExchangeRate));
    assert_eq!(lamports_to_pool_tokens_ceil(1, 5, 0), Err(ErrorCode::InvalidExchangeRate));
    assert_eq!(lamports_to_pool_tokens_ceil(1, 0, 0), Err(ErrorCode::InvalidExchangeRate));
}

#[test]
fn pool_tokens_beyond_64_bits_are_an_overflow() {
    assert_eq!(
        lamports_to_pool_tokens_ceil(u64::MAX, 1, u64::MAX),
        Err(ErrorCode::MathOverflow)
    );
    assert_eq!(lamports_to_pool_tokens_ceil(u64::MAX, 1, 2), Err(ErrorCode::MathOverflow));
    assert_eq!(lamports_to_pool_tokens_ceil(u64::MAX, 2, 2), Ok(u64::MAX));
    assert_eq!(lamports_to_pool_tokens_ceil(u64::MAX, u64::MAX, u64::MAX), Ok(u64::MAX));
    // 2^64 exactly: one more than fits, and a multiple of 2^64.
    assert_eq!(lamports_to_pool_tokens_ceil(1 << 32, 1, 1 << 32), Err(ErrorCode::MathOverflow));
}

#[test]
fn pool_tokens_never_pay_less_than_the_lamports() {
    let cases: [(u64, u64, u64); 6] = [
        (1, 3, 2),
        (7, 1_050_000, 1_000_000),
        (1_000_001, 1_050_000, 1_000_000),
        (999, 1_000, 1),
        (u64::MAX, u64::MAX, 3),
        (123_456_789, 987_654_321, 555_555_555),
    ];
    for (lamports, assets, tokens) in cases {
        let paid = lamports_to_pool_tokens_ceil(lamports, assets, tokens).unwrap();
        let owed = lamports as u128 * tokens as u128;
        assert!(paid as u128 * assets as u128 >= owed);
        assert!((paid as u128 - 1) * (assets as u128) < owed);
        assert!(paid as u128 >= owed / assets as u128);
        assert!(paid >= 1);
    }
}

#[test]
fn yield_share_rounds_down() {
    assert_eq!(yield_share_floor(40_000, 100, 400), Ok(10_000));
    assert_eq!(yield_share_floor(40_000, 300, 400), Ok(30_000));
    assert_eq!(yield_share_floor(100, 1, 3), Ok(33));
    assert_eq!(yield_share_floor(100, 2, 3), Ok(66));
    assert_eq!(yield_share_floor(2, 1, 3), Ok(0));
    assert_eq!(yield_share_floor(0, 5, 7), Ok(0));
    assert_eq!(yield_share_floor(50, 0, 7), Ok(0));
    assert_eq!(yield_share_floor(u64::MAX, u64::MAX, u64::MAX), Ok(u64::MAX));
}

#[test]
fn yield_share_without_points_is_nothing() {
    assert_eq!(yield_share_floor(50_000, 0, 0), Ok(0));
    assert_eq!(yield_share_floor(50_000, 17, 0), Ok(0));
    assert_eq!(yield_share_floor(u64::MAX, u64::MAX, 0), Ok(0));
}

#[test]
fn yield_share_beyond_64_bits_is_an_overflow() {
    assert_eq!(yield_share_floor(u64::MAX, 2, 1), Err(ErrorCode::MathOverflow));
    assert_eq!(yield_share_floor(1 << 63, 4, 2), Err(ErrorCode::MathOverflow));
    assert_eq!(yield_share_floor(1 << 62, 2, 1), Ok(1 << 63));
}

#[test]
fn shares_by_floor_never_exceed_the_yield() {
    let total_yield: u64 = 1_000;
    let points: [u64; 3] = [1, 1, 1];
    let mut paid: u64 = 0;
    for p in points {
        paid += yield_share_floor(total_yield, p, 3).unwrap();
    }
    assert_eq!(paid, 999);
    assert!(paid <= total_yield);
}

//! Exchange-rate arithmetic: products of two 64-bit amounts divided by a
//! third, taken in 128 bits and rounded down or up.

use vstd::prelude::*;
use crate::error::ErrorCode;
use crate::stake_pool::ExchangeRate;

verus! {

/// `a * b / d`, rounded down.
pub open spec fn mul_div_floor(a: u64, b: u64, d: u64) -> int
    recommends
        d > 0,
{
    (a as int * b as int) / (d as int)
}

/// `a * b / d`, rounded up.
pub open spec fn mul_div_ceil(a: u64, b: u64, d: u64) -> int
    recommends
        d > 0,
{
    if (a as int * b as int) % (d as int) == 0 {
        mul_div_floor(a, b, d)
    } else {
        mul_div_floor(a, b, d) + 1
    }
}

/// The lamports that `pool_tokens` are worth at `rate`, rounded down; an
/// error where the pool has no tokens in supply or the worth does not fit.
pub open spec fn lamports_of_pool_tokens(pool_tokens: u64, rate: ExchangeRate) -> Result<
    u64,
    ErrorCode,
> {
    if rate.pool_token_supply == 0 {
        Err(ErrorCode::InvalidExchangeRate)
    } else if mul_div_floor(pool_tokens, rate.total_lamports, rate.pool_token_supply) > u64::MAX {
        Err(ErrorCode::MathOverflow)
    } else {
        Ok(mul_div_floor(pool_tokens, rate.total_lamports, rate.pool_token_supply) as u64)
    }
}

/// The pool tokens that pay out `lamports` when `final_vault_pool_tokens`
/// are worth `final_total_assets_lamports`, rounded up; nothing for nothing,
/// an error where either side of the rate is zero or the tokens do not fit.
pub open spec fn pool_tokens_for_lamports(
    lamports: u64,
    final_total_assets_lamports: u64,
    final_vault_pool_tokens: u64,
) -> Result<u64, ErrorCode> {
    if lamports == 0 {
        Ok(0)
    } else if final_total_assets_lamports == 0 || final_vault_pool_tokens == 0 {
        Err(ErrorCode::InvalidExchangeRate)
    } else if mul_div_ceil(lamports, final_vault_pool_tokens, final_total_assets_lamports)
        > u64::MAX {
        Err(ErrorCode::MathOverflow)
    } else {
        Ok(mul_div_ceil(lamports, final_vault_pool_tokens, final_total_assets_lamports) as u64)
    }
}

/// The part of `final_total_yield_lamports` that falls to a holder of
/// `points` out of `total_points`, rounded down; nothing where nobody holds
/// points, an error where the part does not fit.
pub open spec fn yield_share_of(
    final_total_yield_lamports: u64,
    points: u64,
    total_points: u64,
) -> Result<u64, ErrorCode> {
    if total_points == 0 {
        Ok(0)
    } else if mul_div_floor(final_total_yield_lamports, points, total_points) > u64::MAX {
        Err(ErrorCode::MathOverflow)
    } else {
        Ok(mul_div_floor(final_total_yield_lamports, points, total_points) as u64)
    }
}

/// The product of two 64-bit amounts fits in 128 bits, with room to add one.
pub proof fn lemma_product_fits(a: u64, b: u64)
    ensures
        0 <= (a as int) * (b as int) <= 0xffff_ffff_ffff_fffe_0000_0000_0000_0001,
        (a as int) * (b as int) + 1 <= u128::MAX,
{
    assert(0 <= (a as int) * (b as int) <= 0xffff_ffff_ffff_ffff * 0xffff_ffff_ffff_ffff)
        by (nonlinear_arith)
        requires
            0 <= a <= 0xffff_ffff_ffff_ffff,
            0 <= b <= 0xffff_ffff_ffff_ffff,
    ;
}

/// Rounding down loses less than one: `q = mul_div_floor(a, b, d)` is the
/// one number with `q * d <= a * b < (q + 1) * d`.
pub proof fn lemma_floor_bounds(a: u64, b: u64, d: u64)
    requires
        d > 0,
    ensures
        0 <= mul_div_floor(a, b, d) <= (a as int) * (b as int),
        mul_div_floor(a, b, d) * d <= (a as int) * (b as int),
        (a as int) * (b as int) < (mul_div_floor(a, b, d) + 1) * d,
{
    let n = a as int * b as int;
    lemma_product_fits(a, b);
    vstd::arithmetic::div_mod::lemma_fundamental_div_mod(n, d as int);
    vstd::arithmetic::div_mod::lemma_mod_bound(n, d as int);
    vstd::arithmetic::div_mod::lemma_div_pos_is_pos(n, d as int);
    vstd::arithmetic::div_mod::lemma_div_is_ordered_by_denominator(n, 1, d as int);
    vstd::arithmetic::mul::lemma_mul_is_commutative(d as int, n / (d as int));
    vstd::arithmetic::mul::lemma_mul_is_distributive_add_other_way(d as int, n / (d as int), 1);
}

/// Rounding up adds less than one: `q = mul_div_ceil(a, b, d)` is the one
/// number with `(q - 1) * d < a * b <= q * d`. So a payout in pool tokens is
/// never worth less than the lamports it pays.
pub proof fn lemma_ceil_bounds(a: u64, b: u64, d: u64)
    requires
        d > 0,
    ensures
        mul_div_floor(a, b, d) <= mul_div_ceil(a, b, d) <= mul_div_floor(a, b, d) + 1,
        (mul_div_ceil(a, b, d) - 1) * d < (a as int) * (b as int),
        (a as int) * (b as int) <= mul_div_ceil(a, b, d) * d,
        (a as int) * (b as int) > 0 ==> mul_div_ceil(a, b, d) >= 1,
{
    let n = a as int * b as int;
    let q = n / (d as int);
    lemma_floor_bounds(a, b, d);
    vstd::arithmetic::div_mod::lemma_fundamental_div_mod(n, d as int);
    vstd::arithmetic::div_mod::lemma_mod_bound(n, d as int);
    vstd::arithmetic::mul::lemma_mul_is_commutative(d as int, q);
    vstd::arithmetic::mul::lemma_mul_is_distributive_add_other_way(d as int, q, 1);
    vstd::arithmetic::mul::lemma_mul_is_distributive_sub_other_way(d as int, q, 1);
    if n > 0 && mul_div_ceil(a, b, d) < 1 {
        assert(mul_div_ceil(a, b, d) * d <= 0) by (nonlinear_arith)
            requires
                mul_div_ceil(a, b, d) <= 0,
                d > 0,
        ;
    }
}

/// Converts pool tokens to lamports at the stake pool's rate, rounding down.
pub fn pool_tokens_to_lamports_floor(pool_tokens: u64, stake_pool: &ExchangeRate) -> (lamports:
    Result<u64, ErrorCode>)
    ensures
        lamports == lamports_of_pool_tokens(pool_tokens, *stake_pool),
{
    if stake_pool.pool_token_supply == 0 {
        return Err(ErrorCode::InvalidExchangeRate);
    }
    proof {
        lemma_product_fits(pool_tokens, stake_pool.total_lamports);
    }
    let numerator: u128 = (pool_tokens as u128) * (stake_pool.total_lamports as u128);
    let quotient: u128 = numerator / (stake_pool.pool_token_supply as u128);
    if quotient > u64::MAX as u128 {
        return Err(ErrorCode::MathOverflow);
    }
    Ok(quotient as u64)
}

/// Converts lamports to pool tokens at the snapshot's rate, rounding up.
pub fn lamports_to_pool_tokens_ceil(
    lamports: u64,
    final_total_assets_lamports: u64,
    final_vault_pool_tokens: u64,
) -> (pool_tokens: Result<u64, ErrorCode>)
    ensures
        pool_tokens == pool_tokens_for_lamports(
            lamports,
            final_total_assets_lamports,
            final_vault_pool_tokens,
        ),
        pool_tokens matches Ok(tokens) ==> {
            &&& (tokens as int) * (final_total_assets_lamports as int) >= (lamports as int) * (
            final_vault_pool_tokens as int)
            &&& lamports > 0 ==> tokens >= mul_div_floor(
                lamports,
                final_vault_pool_tokens,
                final_total_assets_lamports,
            )
            &&& lamports > 0 ==> tokens >= 1
        },
{
    if lamports == 0 {
        assert(0 * (final_total_assets_lamports as int) >= 0 * (final_vault_pool_tokens as int));
        return Ok(0);
    }
    if final_total_assets_lamports == 0 {
        return Err(ErrorCode::InvalidExchangeRate);
    }
    if final_vault_pool_tokens == 0 {
        return Err(ErrorCode::InvalidExchangeRate);
    }
    proof {
        lemma_product_fits(lamports, final_vault_pool_tokens);
        lemma_floor_bounds(lamports, final_vault_pool_tokens, final_total_assets_lamports);
        lemma_ceil_bounds(lamports, final_vault_pool_tokens, final_total_assets_lamports);
        assert((lamports as int) * (final_vault_pool_tokens as int) > 0) by (nonlinear_arith)
            requires
                lamports > 0,
                final_vault_pool_tokens > 0,
        ;
    }
    let numerator: u128 = (lamports as u128) * (final_vault_pool_tokens as u128);
    let denominator: u128 = final_total_assets_lamports as u128;
    let quotient: u128 = numerator / denominator;
    let remainder: u128 = numerator % denominator;
    let rounded_up: u128 = if remainder > 0 {
        quotient + 1
    } else {
        quotient
    };
    if rounded_up > u64::MAX as u128 {
        return Err(ErrorCode::MathOverflow);
    }
    Ok(rounded_up as u64)
}

/// The yield that falls to a holder of `points`, rounded down.
pub fn yield_share_floor(final_total_yield_lamports: u64, points: u64, total_points: u64) -> (share:
    Result<u64, ErrorCode>)
    ensures
        share == yield_share_of(final_total_yield_lamports, points, total_points),
        points <= total_points ==> share is Ok,
        share matches Ok(lamports) ==> points <= total_points ==> lamports
            <= final_total_yield_lamports,
{
    if total_points == 0 {
        return Ok(0);
    }
    proof {
        lemma_product_fits(final_total_yield_lamports, points);
        lemma_floor_bounds(final_total_yield_lamports, points, total_points);
        if points <= total_points {
            lemma_share_within_yield(final_total_yield_lamports, points, total_points);
        }
    }
    let numerator: u128 = (final_total_yield_lamports as u128) * (points as u128);
    let quotient: u128 = numerator / (total_points as u128);
    if quotient > u64::MAX as u128 {
        return Err(ErrorCode::MathOverflow);
    }
    Ok(quotient as u64)
}

/// A holder of no more points than there are in all gets no more than the
/// whole yield.
pub proof fn lemma_share_within_yield(final_total_yield_lamports: u64, points: u64, total_points: u64)
    requires
        0 < total_points,
        points <= total_points,
    ensures
        mul_div_floor(final_total_yield_lamports, points, total_points)
            <= final_total_yield_lamports,
{
    let y = final_total_yield_lamports as int;
    let p = points as int;
    let t = total_points as int;
    assert(y * p <= y * t) by (nonlinear_arith)
        requires
            0 <= y,
            0 <= p <= t,
    ;
    vstd::arithmetic::div_mod::lemma_div_is_ordered(y * p, y * t, t);
    vstd::arithmetic::div_mod::lemma_div_multiples_vanish(y, t);
}

} // verus!

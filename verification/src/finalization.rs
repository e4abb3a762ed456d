//! Closing the season: the vault's pool tokens are valued once, at the stake
//! pool's rate, and the yield above the principal is fixed for the payouts.

use vstd::prelude::*;
use crate::accounts::TokenAccount;
use crate::error::ErrorCode;
use crate::events::SeasonFinalized;
use crate::math::{lamports_of_pool_tokens, pool_tokens_to_lamports_floor};
use crate::pubkey::Pubkey;
use crate::stake_pool::{exchange_rate_of, read_stake_pool_state, ExchangeRate};
use crate::state::SeasonState;

verus! {

/// The accounts of `finalize`: the ledger, the vault's pool-token account,
/// and the stake pool with the bytes of its state.
#[derive(Clone, Debug, PartialEq, Eq)]
pub struct Finalize {
    pub season_state: SeasonState,
    pub vault_pool_token_ata: TokenAccount,
    pub stake_pool: Pubkey,
    pub stake_pool_data: Vec<u8>,
}

impl Finalize {
    /// Why closing the season at `now` is refused before the stake pool's
    /// state is looked at, if it is: the season has not ended, is closed
    /// already, or the stake pool or the pool-token account is not the one
    /// that the ledger records.
    pub open spec fn rejection_before_rate(self, now: i64) -> Option<ErrorCode> {
        if !(now >= self.season_state.season_end) {
            Some(ErrorCode::SeasonNotEnded)
        } else if self.season_state.finalized {
            Some(ErrorCode::SeasonAlreadyFinalized)
        } else if self.stake_pool != self.season_state.stake_pool {
            Some(ErrorCode::InvalidStakePoolAccount)
        } else if self.vault_pool_token_ata.key != self.season_state.vault_pool_token_ata {
            Some(ErrorCode::InvalidVaultPoolTokenAccount)
        } else {
            None
        }
    }

    /// What the vault's pool tokens are worth at `rate`, in lamports.
    pub open spec fn total_assets(self, rate: ExchangeRate) -> Result<u64, ErrorCode> {
        lamports_of_pool_tokens(self.vault_pool_token_ata.amount, rate)
    }

    /// The yield at `rate`: the assets above the principal, or nothing.
    pub open spec fn total_yield(self, rate: ExchangeRate) -> u64
        recommends
            self.total_assets(rate) is Ok,
    {
        self.season_state.yield_of(self.total_assets(rate)->Ok_0)
    }

    /// Whether the yield at `rate` is carried over: there is some, and
    /// nobody holds points to share it by.
    pub open spec fn carries_over(self, rate: ExchangeRate) -> bool {
        self.season_state.total_points == 0 && self.total_yield(rate) > 0
    }

    /// Why closing the season at `now` is refused, if it is, where the stake
    /// pool's state reads as `pool_state`: for a reason that stood before,
    /// because the state is none of a stake pool, because the pool has no
    /// tokens in supply, or because the assets or the yield carried over
    /// would pass 64 bits.
    pub open spec fn rejection(self, pool_state: Option<ExchangeRate>, now: i64) -> Option<
        ErrorCode,
    > {
        if self.rejection_before_rate(now) is Some {
            self.rejection_before_rate(now)
        } else if pool_state is None {
            Some(ErrorCode::InvalidStakePoolState)
        } else if self.total_assets(pool_state->Some_0) is Err {
            Some(self.total_assets(pool_state->Some_0)->Err_0)
        } else if self.carries_over(pool_state->Some_0)
            && self.season_state.carry_over_yield_lamports + self.total_yield(pool_state->Some_0)
            > u64::MAX {
            Some(ErrorCode::MathOverflow)
        } else {
            None
        }
    }

    /// The accounts once the season is closed at `rate`: the ledger holds
    /// the snapshot, and the yield is added to what is carried over where
    /// nobody holds points.
    pub open spec fn finalized(self, rate: ExchangeRate) -> Finalize {
        Finalize {
            season_state: SeasonState {
                finalized: true,
                final_total_assets_lamports: self.total_assets(rate)->Ok_0,
                final_total_yield_lamports: self.total_yield(rate),
                final_vault_pool_tokens: self.vault_pool_token_ata.amount,
                carry_over_yield_lamports: if self.carries_over(rate) {
                    (self.season_state.carry_over_yield_lamports + self.total_yield(rate)) as u64
                } else {
                    self.season_state.carry_over_yield_lamports
                },
                ..self.season_state
            },
            ..self
        }
    }

    /// The record of that closing.
    pub open spec fn record(self, rate: ExchangeRate) -> SeasonFinalized {
        let closed = self.finalized(rate).season_state;
        SeasonFinalized {
            final_total_assets_lamports: closed.final_total_assets_lamports,
            total_principal_lamports: closed.total_principal_lamports,
            final_total_yield_lamports: closed.final_total_yield_lamports,
            total_points: closed.total_points,
            carry_over_yield_lamports: closed.carry_over_yield_lamports,
            final_vault_pool_tokens: closed.final_vault_pool_tokens,
        }
    }
}

/// Closes the season, given what the stake pool's state account reads as:
/// `None` where it holds no stake pool. The vault's pool tokens are valued
/// at that rate, rounded down; the yield is what they are worth above the
/// principal, or nothing; where nobody holds points, the yield is added to
/// what is carried over. Not before `season_end`, and once only.
pub fn finalize_with_pool_state(ctx: &mut Finalize, pool_state: Option<ExchangeRate>, now: i64) -> (result:
    Result<SeasonFinalized, ErrorCode>)
    ensures
        match old(ctx).rejection(pool_state, now) {
            Some(error) => result == Err::<SeasonFinalized, ErrorCode>(error) && *final(ctx)
                == *old(ctx),
            None => {
                &&& *final(ctx) == old(ctx).finalized(pool_state->Some_0)
                &&& result == Ok::<SeasonFinalized, ErrorCode>(
                    old(ctx).record(pool_state->Some_0),
                )
            },
        },
        old(ctx).season_state.wf() ==> final(ctx).season_state.wf(),
{
    if !(now >= ctx.season_state.season_end) {
        return Err(ErrorCode::SeasonNotEnded);
    }
    if ctx.season_state.finalized {
        return Err(ErrorCode::SeasonAlreadyFinalized);
    }
    if ctx.stake_pool != ctx.season_state.stake_pool {
        return Err(ErrorCode::InvalidStakePoolAccount);
    }
    if ctx.vault_pool_token_ata.key != ctx.season_state.vault_pool_token_ata {
        return Err(ErrorCode::InvalidVaultPoolTokenAccount);
    }
    let stake_pool_state = match pool_state {
        Some(rate) => rate,
        None => {
            return Err(ErrorCode::InvalidStakePoolState);
        },
    };
    let vault_pool_tokens = ctx.vault_pool_token_ata.amount;
    let total_assets_lamports = match pool_tokens_to_lamports_floor(
        vault_pool_tokens,
        &stake_pool_state,
    ) {
        Ok(lamports) => lamports,
        Err(error) => {
            return Err(error);
        },
    };
    let total_principal = ctx.season_state.total_principal_lamports;
    let total_yield = total_assets_lamports.saturating_sub(total_principal);

    let mut carry_over = ctx.season_state.carry_over_yield_lamports;
    if ctx.season_state.total_points == 0 && total_yield > 0 {
        carry_over = match carry_over.checked_add(total_yield) {
            Some(sum) => sum,
            None => {
                return Err(ErrorCode::MathOverflow);
            },
        };
    }
    ctx.season_state.final_total_assets_lamports = total_assets_lamports;
    ctx.season_state.final_vault_pool_tokens = vault_pool_tokens;
    ctx.season_state.final_total_yield_lamports = total_yield;
    ctx.season_state.carry_over_yield_lamports = carry_over;
    ctx.season_state.finalized = true;

    Ok(
        SeasonFinalized {
            final_total_assets_lamports: ctx.season_state.final_total_assets_lamports,
            total_principal_lamports: ctx.season_state.total_principal_lamports,
            final_total_yield_lamports: ctx.season_state.final_total_yield_lamports,
            total_points: ctx.season_state.total_points,
            carry_over_yield_lamports: ctx.season_state.carry_over_yield_lamports,
            final_vault_pool_tokens: ctx.season_state.final_vault_pool_tokens,
        },
    )
}

/// Closes the season at the rate that the stake pool's state account holds:
/// `finalize_with_pool_state` on what the bytes in `ctx.stake_pool_data`
/// decode to.
pub fn finalize(ctx: &mut Finalize, now: i64) -> (result: Result<SeasonFinalized, ErrorCode>)
    ensures
        match old(ctx).rejection(exchange_rate_of(old(ctx).stake_pool_data@), now) {
            Some(error) => result == Err::<SeasonFinalized, ErrorCode>(error) && *final(ctx)
                == *old(ctx),
            None => {
                &&& *final(ctx) == old(ctx).finalized(
                    exchange_rate_of(old(ctx).stake_pool_data@)->Some_0,
                )
                &&& result == Ok::<SeasonFinalized, ErrorCode>(
                    old(ctx).record(exchange_rate_of(old(ctx).stake_pool_data@)->Some_0),
                )
            },
        },
        old(ctx).season_state.wf() ==> final(ctx).season_state.wf(),
{
    let pool_state = read_stake_pool_state(ctx.stake_pool_data.as_slice());
    finalize_with_pool_state(ctx, pool_state, now)
}

} // verus!

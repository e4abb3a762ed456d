//! Opening a season: the ledger is written once, with its schedule, its
//! authorities and the accounts it will deal with.

use vstd::prelude::*;
use crate::error::ErrorCode;
use crate::events::SeasonInitialized;
use crate::pubkey::Pubkey;
use crate::state::SeasonState;

verus! {

/// The accounts of `initialize_season`: the signer who becomes the owner,
/// the ledger to write, and the addresses that the ledger records.
#[derive(Clone, Copy, Debug, PartialEq, Eq)]
pub struct InitializeSeason {
    pub owner: Pubkey,
    pub season_state: SeasonState,
    pub vault_pool_token_ata: Pubkey,
    pub stake_pool: Pubkey,
    pub stake_pool_program: Pubkey,
    pub pool_mint: Pubkey,
    pub season_state_bump: u8,
    pub vault_authority_bump: u8,
}

impl InitializeSeason {
    /// Why a season with this schedule and game engine is refused, if it is.
    pub open spec fn rejection(
        deposit_start: i64,
        deposit_end: i64,
        season_end: i64,
        game_engine: Pubkey,
    ) -> Option<ErrorCode> {
        if !(deposit_start < deposit_end && deposit_end < season_end) {
            Some(ErrorCode::InvalidTimeWindow)
        } else if game_engine == Pubkey::null() {
            Some(ErrorCode::InvalidAuthority)
        } else {
            None
        }
    }

    /// The ledger of a season just opened: nothing deposited, no points, no
    /// snapshot, nobody proposed.
    pub open spec fn opened(
        self,
        deposit_start: i64,
        deposit_end: i64,
        season_end: i64,
        game_engine: Pubkey,
    ) -> SeasonState {
        SeasonState {
            owner: self.owner,
            game_engine,
            pending_game_engine: Pubkey::null(),
            deposit_start,
            deposit_end,
            season_end,
            total_principal_lamports: 0,
            total_points: 0,
            finalized: false,
            final_total_assets_lamports: 0,
            final_total_yield_lamports: 0,
            final_vault_pool_tokens: 0,
            carry_over_yield_lamports: 0,
            stake_pool_program_id: self.stake_pool_program,
            stake_pool: self.stake_pool,
            pool_mint: self.pool_mint,
            vault_pool_token_ata: self.vault_pool_token_ata,
            bump: self.season_state_bump,
            vault_authority_bump: self.vault_authority_bump,
        }
    }

    /// The record of a season opened with this ledger.
    pub open spec fn record(state: SeasonState) -> SeasonInitialized {
        SeasonInitialized {
            owner: state.owner,
            game_engine: state.game_engine,
            deposit_start: state.deposit_start,
            deposit_end: state.deposit_end,
            season_end: state.season_end,
            stake_pool_program_id: state.stake_pool_program_id,
            stake_pool: state.stake_pool,
            pool_mint: state.pool_mint,
            vault_pool_token_ata: state.vault_pool_token_ata,
        }
    }
}

/// Opens the season. Refused with `InvalidTimeWindow` unless
/// `deposit_start < deposit_end < season_end`, then with `InvalidAuthority`
/// where the game engine is the null identity.
pub fn initialize_season(
    ctx: &mut InitializeSeason,
    deposit_start: i64,
    deposit_end: i64,
    season_end: i64,
    game_engine: Pubkey,
) -> (result: Result<SeasonInitialized, ErrorCode>)
    ensures
        match InitializeSeason::rejection(deposit_start, deposit_end, season_end, game_engine) {
            Some(error) => result == Err::<SeasonInitialized, ErrorCode>(error) && *final(ctx)
                == *old(ctx),
            None => {
                &&& *final(ctx) == (InitializeSeason {
                    season_state: old(ctx).opened(
                        deposit_start,
                        deposit_end,
                        season_end,
                        game_engine,
                    ),
                    ..*old(ctx)
                })
                &&& result == Ok::<SeasonInitialized, ErrorCode>(
                    InitializeSeason::record(final(ctx).season_state),
                )
            },
        },
        result is Ok ==> final(ctx).season_state.wf(),
{
    if !(deposit_start < deposit_end && deposit_end < season_end) {
        return Err(ErrorCode::InvalidTimeWindow);
    }
    if game_engine == Pubkey::default() {
        return Err(ErrorCode::InvalidAuthority);
    }
    ctx.season_state.owner = ctx.owner;
    ctx.season_state.game_engine = game_engine;
    ctx.season_state.pending_game_engine = Pubkey::default();

    ctx.season_state.deposit_start = deposit_start;
    ctx.season_state.deposit_end = deposit_end;
    ctx.season_state.season_end = season_end;

    ctx.season_state.total_principal_lamports = 0;
    ctx.season_state.total_points = 0;

    ctx.season_state.finalized = false;
    ctx.season_state.final_total_assets_lamports = 0;
    ctx.season_state.final_total_yield_lamports = 0;
    ctx.season_state.final_vault_pool_tokens = 0;
    ctx.season_state.carry_over_yield_lamports = 0;

    ctx.season_state.stake_pool_program_id = ctx.stake_pool_program;
    ctx.season_state.stake_pool = ctx.stake_pool;
    ctx.season_state.pool_mint = ctx.pool_mint;
    ctx.season_state.vault_pool_token_ata = ctx.vault_pool_token_ata;

    ctx.season_state.bump = ctx.season_state_bump;
    ctx.season_state.vault_authority_bump = ctx.vault_authority_bump;

    Ok(
        SeasonInitialized {
            owner: ctx.season_state.owner,
            game_engine,
            deposit_start,
            deposit_end,
            season_end,
            stake_pool_program_id: ctx.season_state.stake_pool_program_id,
            stake_pool: ctx.season_state.stake_pool,
            pool_mint: ctx.season_state.pool_mint,
            vault_pool_token_ata: ctx.season_state.vault_pool_token_ata,
        },
    )
}

} // verus!

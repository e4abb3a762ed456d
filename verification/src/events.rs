//! The records that the vault hands out, one for each operation that took
//! effect. Each carries the values as they stand after the operation.

use vstd::prelude::*;
use crate::pubkey::Pubkey;

verus! {

/// A season was opened.
#[derive(Clone, Copy, Debug, PartialEq, Eq)]
pub struct SeasonInitialized {
    pub owner: Pubkey,
    pub game_engine: Pubkey,
    pub deposit_start: i64,
    pub deposit_end: i64,
    pub season_end: i64,
    pub stake_pool_program_id: Pubkey,
    pub stake_pool: Pubkey,
    pub pool_mint: Pubkey,
    pub vault_pool_token_ata: Pubkey,
}

/// A deposit was booked.
#[derive(Clone, Copy, Debug, PartialEq, Eq)]
pub struct Deposited {
    pub user: Pubkey,
    pub amount_lamports: u64,
    pub new_user_principal_lamports: u64,
    pub new_total_principal_lamports: u64,
    pub minted_pool_token_delta: u64,
}

/// Points were credited.
#[derive(Clone, Copy, Debug, PartialEq, Eq)]
pub struct PointsAwarded {
    pub user: Pubkey,
    pub delta: u64,
    pub new_user_points: u64,
    pub new_total_points: u64,
}

/// The season was closed.
#[derive(Clone, Copy, Debug, PartialEq, Eq)]
pub struct SeasonFinalized {
    pub final_total_assets_lamports: u64,
    pub total_principal_lamports: u64,
    pub final_total_yield_lamports: u64,
    pub total_points: u64,
    pub carry_over_yield_lamports: u64,
    pub final_vault_pool_tokens: u64,
}

/// A participant was paid out.
#[derive(Clone, Copy, Debug, PartialEq, Eq)]
pub struct Withdrawn {
    pub user: Pubkey,
    pub principal_lamports: u64,
    pub yield_share_lamports: u64,
    pub payout_lamports: u64,
    pub payout_pool_tokens: u64,
}

/// A new game engine was proposed.
#[derive(Clone, Copy, Debug, PartialEq, Eq)]
pub struct GameEngineProposed {
    pub current_game_engine: Pubkey,
    pub proposed_game_engine: Pubkey,
}

/// The proposed game engine took over.
#[derive(Clone, Copy, Debug, PartialEq, Eq)]
pub struct GameEngineAccepted {
    pub previous_game_engine: Pubkey,
    pub new_game_engine: Pubkey,
}

} // verus!

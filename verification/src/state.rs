//! The two kinds of record that the vault keeps: one ledger per season, one
//! position per participant.

use vstd::prelude::*;
use crate::pubkey::Pubkey;

verus! {

/// Where a season stands. The ledger stores no phase: it follows from the
/// clock, the schedule and whether the season is closed, each time anew.
#[derive(Clone, Copy, Debug, PartialEq, Eq, Hash, Structural)]
pub enum Phase {
    /// Before `deposit_start`: the game engine can still be replaced.
    Created,
    /// From `deposit_start` until `deposit_end`: deposits and points.
    DepositOpen,
    /// From `deposit_end` until `season_end`: points only.
    PointsOpen,
    /// From `season_end` on, until the season is closed.
    SeasonEnded,
    /// Closed: payouts.
    Finalized,
}

/// The season's ledger: schedule, authorities, running totals and, once the
/// season is closed, the snapshot that payouts are computed from.
#[derive(Clone, Copy, Debug, PartialEq, Eq)]
pub struct SeasonState {
    pub owner: Pubkey,
    pub game_engine: Pubkey,
    pub pending_game_engine: Pubkey,
    pub deposit_start: i64,
    pub deposit_end: i64,
    pub season_end: i64,
    pub total_principal_lamports: u64,
    pub total_points: u64,
    pub finalized: bool,
    pub final_total_assets_lamports: u64,
    pub final_total_yield_lamports: u64,
    pub final_vault_pool_tokens: u64,
    pub carry_over_yield_lamports: u64,
    pub stake_pool_program_id: Pubkey,
    pub stake_pool: Pubkey,
    pub pool_mint: Pubkey,
    pub vault_pool_token_ata: Pubkey,
    pub bump: u8,
    pub vault_authority_bump: u8,
}

impl SeasonState {
    /// Bytes that a stored ledger takes.
    pub const LEN: usize = (32 * 7) + (8 * 9) + 1 + 2 + 16;

    /// Deposits open before they close, and close before the season ends.
    pub open spec fn schedule_ordered(self) -> bool {
        self.deposit_start < self.deposit_end && self.deposit_end < self.season_end
    }

    /// The phase of the season at `now`.
    pub open spec fn phase_at(self, now: i64) -> Phase {
        if self.finalized {
            Phase::Finalized
        } else if now < self.deposit_start {
            Phase::Created
        } else if now < self.deposit_end {
            Phase::DepositOpen
        } else if now < self.season_end {
            Phase::PointsOpen
        } else {
            Phase::SeasonEnded
        }
    }

    /// Deposits are accepted at `now`, as far as the clock decides.
    pub open spec fn deposit_window_open(self, now: i64) -> bool {
        self.deposit_start <= now && now < self.deposit_end
    }

    /// Points are awarded at `now`, as far as the clock decides.
    pub open spec fn points_window_open(self, now: i64) -> bool {
        self.deposit_start <= now && now < self.season_end
    }

    /// The yield of a season with these assets, floored at zero.
    pub open spec fn yield_of(self, total_assets_lamports: u64) -> u64 {
        if total_assets_lamports >= self.total_principal_lamports {
            (total_assets_lamports - self.total_principal_lamports) as u64
        } else {
            0
        }
    }

    /// What holds of every ledger that the vault's operations produce: an
    /// ordered schedule, a game engine, an empty snapshot until the season is
    /// closed, and afterwards a snapshot whose yield is the assets above the
    /// principal, carried over whole where nobody holds points.
    pub open spec fn wf(self) -> bool {
        &&& self.schedule_ordered()
        &&& self.game_engine != Pubkey::null()
        &&& !self.finalized ==> {
            &&& self.final_total_assets_lamports == 0
            &&& self.final_total_yield_lamports == 0
            &&& self.final_vault_pool_tokens == 0
            &&& self.carry_over_yield_lamports == 0
        }
        &&& self.finalized ==> {
            &&& self.final_total_yield_lamports == self.yield_of(self.final_total_assets_lamports)
            &&& self.carry_over_yield_lamports == if self.total_points == 0 {
                self.final_total_yield_lamports
            } else {
                0
            }
        }
    }
}

impl SeasonState {
    /// The phase of the season at `now`.
    pub fn phase(&self, now: i64) -> (phase: Phase)
        ensures
            phase == self.phase_at(now),
    {
        if self.finalized {
            Phase::Finalized
        } else if now < self.deposit_start {
            Phase::Created
        } else if now < self.deposit_end {
            Phase::DepositOpen
        } else if now < self.season_end {
            Phase::PointsOpen
        } else {
            Phase::SeasonEnded
        }
    }
}

/// One participant's position in the season.
#[derive(Clone, Copy, Debug, PartialEq, Eq)]
pub struct UserPosition {
    pub season: Pubkey,
    pub user: Pubkey,
    pub principal_lamports: u64,
    pub points: u64,
    pub withdrawn: bool,
    pub bump: u8,
}

impl UserPosition {
    /// Bytes that a stored position takes.
    pub const LEN: usize = (32 * 2) + (8 * 2) + 1 + 1 + 16;

    /// The record as it is allocated, before its first deposit: all zero.
    pub open spec fn vacant() -> UserPosition {
        UserPosition {
            season: Pubkey::null(),
            user: Pubkey::null(),
            principal_lamports: 0,
            points: 0,
            withdrawn: false,
            bump: 0,
        }
    }
}

impl Default for UserPosition {
    fn default() -> (position: UserPosition)
        ensures
            position == UserPosition::vacant(),
    {
        UserPosition {
            season: Pubkey::default(),
            user: Pubkey::default(),
            principal_lamports: 0,
            points: 0,
            withdrawn: false,
            bump: 0,
        }
    }
}

} // verus!

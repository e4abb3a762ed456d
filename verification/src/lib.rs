//! Accounting core of a season-bounded staking vault.
//!
//! Participants deposit lamports while the deposit window is open; the vault
//! passes them on to a stake pool and holds the pool tokens. A game engine
//! awards points until the season ends. Then the season is closed once: the
//! pool tokens are valued at the stake pool's rate, and what they are worth
//! above the principal is the yield. Each participant takes out the
//! principal and a share of the yield by points.
//!
//! The vault reads no clock and calls no program. Each operation takes the
//! time and what was read from the accounts as plain values, and hands back
//! what is to be recorded and, where there is one, the call to make.

pub mod accounts;
pub mod authority;
pub mod deposits;
pub mod error;
pub mod events;
pub mod finalization;
pub mod governance;
pub mod initialization;
pub mod laws;
pub mod math;
pub mod points;
pub mod pubkey;
pub mod season;
pub mod stake_pool;
pub mod state;
pub mod withdrawal;

pub use crate::accounts::{AccountInfo, AccountMeta, Instruction, TokenAccount, Transfer};
pub use crate::authority::{vault_authority_signer_seeds, VAULT_AUTHORITY_SEED};
pub use crate::deposits::{deposit_sol, deposit_sol_instruction, DepositSol};
pub use crate::error::ErrorCode;
pub use crate::events::{
    Deposited, GameEngineAccepted, GameEngineProposed, PointsAwarded, SeasonFinalized,
    SeasonInitialized, Withdrawn,
};
pub use crate::finalization::{finalize, finalize_with_pool_state, Finalize};
pub use crate::governance::{
    accept_game_engine, propose_game_engine, AcceptGameEngine, ProposeGameEngine,
};
pub use crate::initialization::{initialize_season, InitializeSeason};
pub use crate::math::{
    lamports_to_pool_tokens_ceil, pool_tokens_to_lamports_floor, yield_share_floor,
};
pub use crate::points::{award_points, AwardPoints};
pub use crate::pubkey::Pubkey;
pub use crate::stake_pool::{read_stake_pool_state, ExchangeRate};
pub use crate::state::{Phase, SeasonState, UserPosition};
pub use crate::withdrawal::{withdraw, Withdraw};

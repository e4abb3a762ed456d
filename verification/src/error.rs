//! The reasons for which the vault refuses an operation.

use vstd::prelude::*;

verus! {

/// Why an operation was refused. A refused operation changes nothing.
#[derive(Clone, Copy, Debug, PartialEq, Eq, Hash, Structural)]
pub enum ErrorCode {
    /// An authority was given as the null identity.
    InvalidAuthority,
    /// The season's three timestamps are not strictly increasing.
    InvalidTimeWindow,
    /// A deposit came outside `[deposit_start, deposit_end)`.
    DepositWindowClosed,
    /// Points were awarded outside `[deposit_start, season_end)`.
    PointsWindowClosed,
    /// The season was closed before `season_end`.
    SeasonNotEnded,
    /// The season is closed already.
    SeasonAlreadyFinalized,
    /// The season is not closed yet.
    SeasonNotFinalized,
    /// The participant has been paid out already.
    AlreadyWithdrawn,
    /// The participant never deposited.
    NoPrincipal,
    /// A deposit of zero lamports.
    InvalidAmount,
    /// A sum or a quotient does not fit in 64 bits.
    MathOverflow,
    /// Points were awarded by another identity than the game engine.
    UnauthorizedGameEngine,
    /// The game engine can no longer be replaced: deposits have opened.
    GameEngineFrozen,
    /// No game engine has been proposed.
    NoPendingGameEngine,
    /// The hand-over was accepted by another identity than the proposed one.
    UnauthorizedGameEngineAccept,
    /// The stake-pool program is not the one recorded for the season.
    InvalidStakePoolProgram,
    /// The stake pool is not the one recorded for the season.
    InvalidStakePoolAccount,
    /// The pool-token account is not the vault's own.
    InvalidVaultPoolTokenAccount,
    /// The stake pool's deposit left the vault with fewer pool tokens.
    StakePoolCpiNoMint,
    /// The position belongs to another participant.
    InvalidUserPosition,
    /// The stake pool's state account does not hold a stake pool.
    InvalidStakePoolState,
    /// The exchange rate has a zero on one side.
    InvalidExchangeRate,
    /// The vault holds fewer pool tokens than the payout.
    InsufficientVaultPoolTokens,
    /// The payout comes to zero pool tokens.
    ZeroPayout,
    /// The signer is not the season's owner.
    ConstraintHasOne,
    /// An account is not at the address recorded for the season.
    ConstraintAddress,
}

impl ErrorCode {
    /// The sentence that goes with the error.
    pub open spec fn text(self) -> Seq<char> {
        match self {
            ErrorCode::InvalidAuthority => "Invalid authority address"@,
            ErrorCode::InvalidTimeWindow => "Invalid time window"@,
            ErrorCode::DepositWindowClosed => "Deposit window is closed"@,
            ErrorCode::PointsWindowClosed => "Points can only be awarded during active season"@,
            ErrorCode::SeasonNotEnded => "Season not yet ended"@,
            ErrorCode::SeasonAlreadyFinalized => "Season already finalized"@,
            ErrorCode::SeasonNotFinalized => "Season not finalized"@,
            ErrorCode::AlreadyWithdrawn => "User already withdrew"@,
            ErrorCode::NoPrincipal => "User has no principal"@,
            ErrorCode::InvalidAmount => "Invalid amount"@,
            ErrorCode::MathOverflow => "Math overflow"@,
            ErrorCode::UnauthorizedGameEngine => "Unauthorized game engine"@,
            ErrorCode::GameEngineFrozen => "Game engine changes are frozen once deposits open"@,
            ErrorCode::NoPendingGameEngine => "No pending game engine proposal"@,
            ErrorCode::UnauthorizedGameEngineAccept => "Only proposed game engine can accept"@,
            ErrorCode::InvalidStakePoolProgram => "Invalid stake-pool program"@,
            ErrorCode::InvalidStakePoolAccount => "Invalid stake-pool account"@,
            ErrorCode::InvalidVaultPoolTokenAccount => "Invalid vault pool token account"@,
            ErrorCode::StakePoolCpiNoMint => "Stake-pool CPI did not increase vault pool token balance"@,
            ErrorCode::InvalidUserPosition => "Invalid user position"@,
            ErrorCode::InvalidStakePoolState => "Invalid stake-pool state"@,
            ErrorCode::InvalidExchangeRate => "Invalid exchange rate state"@,
            ErrorCode::InsufficientVaultPoolTokens => "Insufficient vault pool tokens"@,
            ErrorCode::ZeroPayout => "Calculated payout is zero"@,
            ErrorCode::ConstraintHasOne => "A has one constraint was violated"@,
            ErrorCode::ConstraintAddress => "An address constraint was violated"@,
        }
    }

    /// The sentence that goes with the error.
    pub fn message(&self) -> (message: &'static str)
        ensures
            message@ == self.text(),
    {
        match self {
            ErrorCode::InvalidAuthority => "Invalid authority address",
            ErrorCode::InvalidTimeWindow => "Invalid time window",
            ErrorCode::DepositWindowClosed => "Deposit window is closed",
            ErrorCode::PointsWindowClosed => "Points can only be awarded during active season",
            ErrorCode::SeasonNotEnded => "Season not yet ended",
            ErrorCode::SeasonAlreadyFinalized => "Season already finalized",
            ErrorCode::SeasonNotFinalized => "Season not finalized",
            ErrorCode::AlreadyWithdrawn => "User already withdrew",
            ErrorCode::NoPrincipal => "User has no principal",
            ErrorCode::InvalidAmount => "Invalid amount",
            ErrorCode::MathOverflow => "Math overflow",
            ErrorCode::UnauthorizedGameEngine => "Unauthorized game engine",
            ErrorCode::GameEngineFrozen => "Game engine changes are frozen once deposits open",
            ErrorCode::NoPendingGameEngine => "No pending game engine proposal",
            ErrorCode::UnauthorizedGameEngineAccept => "Only proposed game engine can accept",
            ErrorCode::InvalidStakePoolProgram => "Invalid stake-pool program",
            ErrorCode::InvalidStakePoolAccount => "Invalid stake-pool account",
            ErrorCode::InvalidVaultPoolTokenAccount => "Invalid vault pool token account",
            ErrorCode::StakePoolCpiNoMint => "Stake-pool CPI did not increase vault pool token balance",
            ErrorCode::InvalidUserPosition => "Invalid user position",
            ErrorCode::InvalidStakePoolState => "Invalid stake-pool state",
            ErrorCode::InvalidExchangeRate => "Invalid exchange rate state",
            ErrorCode::InsufficientVaultPoolTokens => "Insufficient vault pool tokens",
            ErrorCode::ZeroPayout => "Calculated payout is zero",
            ErrorCode::ConstraintHasOne => "A has one constraint was violated",
            ErrorCode::ConstraintAddress => "An address constraint was violated",
        }
    }
}

} // verus!

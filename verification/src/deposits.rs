//! Deposits. The lamports go to the stake pool through a call that the
//! depositor has put together; the vault passes it on as it stands, judges
//! it by the pool tokens that arrive, and books the principal.

use vstd::prelude::*;
use crate::accounts::{AccountInfo, AccountMeta, Instruction, TokenAccount};
use crate::error::ErrorCode;
use crate::events::Deposited;
use crate::pubkey::Pubkey;
use crate::state::{SeasonState, UserPosition};

verus! {

/// The accounts of `deposit_sol`: the depositor, the ledger and its address,
/// the depositor's position, the vault's pool-token account as it was read
/// before the stake pool is called, the stake pool and its program, and the
/// accounts that the stake pool's deposit works on.
#[derive(Clone, Debug, PartialEq, Eq)]
pub struct DepositSol {
    pub user: Pubkey,
    pub season_state_key: Pubkey,
    pub season_state: SeasonState,
    pub user_position: UserPosition,
    pub user_position_bump: u8,
    pub vault_pool_token_ata: TokenAccount,
    pub stake_pool: Pubkey,
    pub stake_pool_program: Pubkey,
    pub remaining_accounts: Vec<AccountInfo>,
}

impl DepositSol {
    /// Why a deposit of `amount_lamports` at `now` is refused before the
    /// stake pool is called, if it is: the season is closed, the deposit
    /// window is, nothing is deposited, or the stake-pool program, the stake
    /// pool or the pool-token account is not the one that the ledger records.
    pub open spec fn rejection_before_pool(self, amount_lamports: u64, now: i64) -> Option<
        ErrorCode,
    > {
        if self.season_state.finalized {
            Some(ErrorCode::SeasonAlreadyFinalized)
        } else if !self.season_state.deposit_window_open(now) {
            Some(ErrorCode::DepositWindowClosed)
        } else if amount_lamports == 0 {
            Some(ErrorCode::InvalidAmount)
        } else if self.stake_pool_program != self.season_state.stake_pool_program_id {
            Some(ErrorCode::InvalidStakePoolProgram)
        } else if self.stake_pool != self.season_state.stake_pool {
            Some(ErrorCode::InvalidStakePoolAccount)
        } else if self.vault_pool_token_ata.key != self.season_state.vault_pool_token_ata {
            Some(ErrorCode::InvalidVaultPoolTokenAccount)
        } else {
            None
        }
    }

    /// The call that carries the deposit to the stake pool: the recorded
    /// program, the accounts that came along, in their order, and the
    /// depositor's bytes.
    pub open spec fn pool_call(self, stake_pool_deposit_ix_data: Seq<u8>, call: Instruction) -> bool {
        &&& call.program_id == self.stake_pool_program
        &&& call.accounts@ == self.remaining_accounts@.map_values(|info: AccountInfo| info.meta())
        &&& call.data@ == stake_pool_deposit_ix_data
    }

    /// The position that the deposit is booked on: the one handed in, or,
    /// where that record belongs to nobody yet, a new one for the depositor.
    pub open spec fn position_to_credit(self) -> UserPosition {
        if self.user_position.user == Pubkey::null() {
            UserPosition {
                season: self.season_state_key,
                user: self.user,
                principal_lamports: 0,
                points: 0,
                withdrawn: false,
                bump: self.user_position_bump,
            }
        } else {
            self.user_position
        }
    }

    /// Why a deposit of `amount_lamports` at `now` is refused, if it is,
    /// where the stake pool's call has left the vault with `after_tokens`
    /// pool tokens: for a reason that stood before the call, because pool
    /// tokens have gone, or because a principal would pass 64 bits.
    pub open spec fn rejection(self, amount_lamports: u64, after_tokens: u64, now: i64) -> Option<
        ErrorCode,
    > {
        if self.rejection_before_pool(amount_lamports, now) is Some {
            self.rejection_before_pool(amount_lamports, now)
        } else if after_tokens < self.vault_pool_token_ata.amount {
            Some(ErrorCode::StakePoolCpiNoMint)
        } else if self.position_to_credit().principal_lamports + amount_lamports > u64::MAX {
            Some(ErrorCode::MathOverflow)
        } else if self.season_state.total_principal_lamports + amount_lamports > u64::MAX {
            Some(ErrorCode::MathOverflow)
        } else {
            None
        }
    }

    /// The accounts once the deposit is booked: `amount_lamports` more on the
    /// position and in the ledger's total, and the pool-token account as it
    /// was read again.
    pub open spec fn deposited(self, amount_lamports: u64, after_tokens: u64) -> DepositSol {
        DepositSol {
            season_state: SeasonState {
                total_principal_lamports: (self.season_state.total_principal_lamports
                    + amount_lamports) as u64,
                ..self.season_state
            },
            user_position: UserPosition {
                principal_lamports: (self.position_to_credit().principal_lamports
                    + amount_lamports) as u64,
                ..self.position_to_credit()
            },
            vault_pool_token_ata: TokenAccount { amount: after_tokens, ..self.vault_pool_token_ata },
            ..self
        }
    }

    /// The record of that deposit.
    pub open spec fn record(self, amount_lamports: u64, after_tokens: u64) -> Deposited {
        Deposited {
            user: self.user,
            amount_lamports,
            new_user_principal_lamports: self.deposited(
                amount_lamports,
                after_tokens,
            ).user_position.principal_lamports,
            new_total_principal_lamports: self.deposited(
                amount_lamports,
                after_tokens,
            ).season_state.total_principal_lamports,
            minted_pool_token_delta: (after_tokens - self.vault_pool_token_ata.amount) as u64,
        }
    }
}

/// Tests what can be tested before the stake pool is called.
fn check_before_pool(ctx: &DepositSol, amount_lamports: u64, now: i64) -> (result: Result<
    (),
    ErrorCode,
>)
    ensures
        match ctx.rejection_before_pool(amount_lamports, now) {
            Some(error) => result == Err::<(), ErrorCode>(error),
            None => result is Ok,
        },
{
    if ctx.season_state.finalized {
        return Err(ErrorCode::SeasonAlreadyFinalized);
    }
    if !(now >= ctx.season_state.deposit_start && now < ctx.season_state.deposit_end) {
        return Err(ErrorCode::DepositWindowClosed);
    }
    if amount_lamports == 0 {
        return Err(ErrorCode::InvalidAmount);
    }
    if ctx.stake_pool_program != ctx.season_state.stake_pool_program_id {
        return Err(ErrorCode::InvalidStakePoolProgram);
    }
    if ctx.stake_pool != ctx.season_state.stake_pool {
        return Err(ErrorCode::InvalidStakePoolAccount);
    }
    if ctx.vault_pool_token_ata.key != ctx.season_state.vault_pool_token_ata {
        return Err(ErrorCode::InvalidVaultPoolTokenAccount);
    }
    Ok(())
}

/// The first half of a deposit: decides whether the stake pool is to be
/// called, and with what. The caller makes the call, reads the vault's
/// pool-token account again, and books the deposit with `deposit_sol`.
pub fn deposit_sol_instruction(
    ctx: &DepositSol,
    amount_lamports: u64,
    stake_pool_deposit_ix_data: Vec<u8>,
    now: i64,
) -> (result: Result<Instruction, ErrorCode>)
    ensures
        match ctx.rejection_before_pool(amount_lamports, now) {
            Some(error) => result == Err::<Instruction, ErrorCode>(error),
            None => result matches Ok(call) && ctx.pool_call(stake_pool_deposit_ix_data@, call),
        },
{
    match check_before_pool(ctx, amount_lamports, now) {
        Err(error) => {
            return Err(error);
        },
        Ok(_) => {},
    }
    let mut metas: Vec<AccountMeta> = Vec::new();
    let mut i: usize = 0;
    while i < ctx.remaining_accounts.len()
        invariant
            i <= ctx.remaining_accounts.len(),
            metas@ == ctx.remaining_accounts@.take(i as int).map_values(
                |info: AccountInfo| info.meta(),
            ),
        decreases ctx.remaining_accounts.len() - i,
    {
        let info = &ctx.remaining_accounts[i];
        metas.push(
            AccountMeta {
                pubkey: info.key,
                is_signer: info.is_signer,
                is_writable: info.is_writable,
            },
        );
        i = i + 1;
        assert(metas@ =~= ctx.remaining_accounts@.take(i as int).map_values(
            |info: AccountInfo| info.meta(),
        ));
    }
    assert(ctx.remaining_accounts@.take(i as int) =~= ctx.remaining_accounts@);
    Ok(Instruction { program_id: ctx.stake_pool_program, accounts: metas, data: stake_pool_deposit_ix_data })
}

/// The second half of a deposit: books `amount_lamports` on the depositor's
/// position and in the ledger, once the stake pool has been called and the
/// vault holds `after_tokens` pool tokens. A position that belongs to nobody
/// yet becomes the depositor's. Refused for whatever stood against calling
/// the stake pool; with `StakePoolCpiNoMint` where the vault holds fewer
/// pool tokens than before; with `MathOverflow` where the position's or the
/// ledger's principal would pass 64 bits.
pub fn deposit_sol(ctx: &mut DepositSol, amount_lamports: u64, after_tokens: u64, now: i64) -> (result:
    Result<Deposited, ErrorCode>)
    ensures
        match old(ctx).rejection(amount_lamports, after_tokens, now) {
            Some(error) => result == Err::<Deposited, ErrorCode>(error) && *final(ctx) == *old(
                ctx,
            ),
            None => {
                &&& *final(ctx) == old(ctx).deposited(amount_lamports, after_tokens)
                &&& result == Ok::<Deposited, ErrorCode>(
                    old(ctx).record(amount_lamports, after_tokens),
                )
            },
        },
        old(ctx).season_state.wf() ==> final(ctx).season_state.wf(),
{
    match check_before_pool(ctx, amount_lamports, now) {
        Err(error) => {
            return Err(error);
        },
        Ok(_) => {},
    }
    let before_tokens = ctx.vault_pool_token_ata.amount;
    if !(after_tokens >= before_tokens) {
        return Err(ErrorCode::StakePoolCpiNoMint);
    }
    let mut user_position = ctx.user_position;
    if user_position.user == Pubkey::default() {
        user_position.season = ctx.season_state_key;
        user_position.user = ctx.user;
        user_position.principal_lamports = 0;
        user_position.points = 0;
        user_position.withdrawn = false;
        user_position.bump = ctx.user_position_bump;
    }
    let new_user_principal = match user_position.principal_lamports.checked_add(amount_lamports) {
        Some(sum) => sum,
        None => {
            return Err(ErrorCode::MathOverflow);
        },
    };
    let new_total_principal = match ctx.season_state.total_principal_lamports.checked_add(
        amount_lamports,
    ) {
        Some(sum) => sum,
        None => {
            return Err(ErrorCode::MathOverflow);
        },
    };
    user_position.principal_lamports = new_user_principal;
    ctx.user_position = user_position;
    ctx.season_state.total_principal_lamports = new_total_principal;
    ctx.vault_pool_token_ata.amount = after_tokens;

    Ok(
        Deposited {
            user: ctx.user,
            amount_lamports,
            new_user_principal_lamports: new_user_principal,
            new_total_principal_lamports: new_total_principal,
            minted_pool_token_delta: after_tokens.saturating_sub(before_tokens),
        },
    )
}

} // verus!

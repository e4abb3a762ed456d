//! Payouts: once the season is closed, each participant takes out the
//! principal and a share of the yield by points, in pool tokens at the
//! snapshot's rate. Once only.

use vstd::prelude::*;
use crate::accounts::{TokenAccount, Transfer};
use crate::authority::{is_vault_authority, vault_authority_signer_seeds};
use crate::error::ErrorCode;
use crate::events::Withdrawn;
use crate::math::{
    lamports_to_pool_tokens_ceil,
    pool_tokens_for_lamports,
    yield_share_floor,
    yield_share_of,
};
use crate::pubkey::Pubkey;
use crate::state::{SeasonState, UserPosition};

verus! {

/// The accounts of `withdraw`: the participant, the ledger and its address,
/// the participant's position, the vault's pool-token account, the pool
/// mint, and the pool-token account that is paid.
#[derive(Clone, Copy, Debug, PartialEq, Eq)]
pub struct Withdraw {
    pub user: Pubkey,
    pub season_state_key: Pubkey,
    pub season_state: SeasonState,
    pub user_position: UserPosition,
    pub vault_pool_token_ata: TokenAccount,
    pub pool_mint: Pubkey,
    pub user_pool_token_ata: Pubkey,
}

impl Withdraw {
    /// Why the accounts are refused as they stand, if they are: the
    /// position is somebody else's, or the pool-token account or the pool
    /// mint is not the one that the ledger records.
    pub open spec fn rejection_of_accounts(self) -> Option<ErrorCode> {
        if self.user_position.user != self.user {
            Some(ErrorCode::InvalidUserPosition)
        } else if self.vault_pool_token_ata.key != self.season_state.vault_pool_token_ata {
            Some(ErrorCode::ConstraintAddress)
        } else if self.pool_mint != self.season_state.pool_mint {
            Some(ErrorCode::ConstraintAddress)
        } else {
            None
        }
    }

    /// The participant's share of the yield, in lamports.
    pub open spec fn yield_share(self) -> Result<u64, ErrorCode> {
        yield_share_of(
            self.season_state.final_total_yield_lamports,
            self.user_position.points,
            self.season_state.total_points,
        )
    }

    /// The payout in lamports: the principal and the share of the yield.
    pub open spec fn payout_lamports(self) -> int
        recommends
            self.yield_share() is Ok,
    {
        self.user_position.principal_lamports + self.yield_share()->Ok_0
    }

    /// The payout in pool tokens, at the snapshot's rate.
    pub open spec fn payout_pool_tokens(self) -> Result<u64, ErrorCode>
        recommends
            self.yield_share() is Ok,
            self.payout_lamports() <= u64::MAX,
    {
        pool_tokens_for_lamports(
            self.payout_lamports() as u64,
            self.season_state.final_total_assets_lamports,
            self.season_state.final_vault_pool_tokens,
        )
    }

    /// Why the payout is refused, if it is: the accounts are, the season is
    /// not closed, the participant has been paid or never deposited, the
    /// share, the payout or its pool tokens pass 64 bits, the snapshot's
    /// rate has a zero on one side, the payout comes to no pool tokens, or
    /// the vault holds too few.
    pub open spec fn rejection(self) -> Option<ErrorCode> {
        if self.rejection_of_accounts() is Some {
            self.rejection_of_accounts()
        } else if !self.season_state.finalized {
            Some(ErrorCode::SeasonNotFinalized)
        } else if self.user_position.withdrawn {
            Some(ErrorCode::AlreadyWithdrawn)
        } else if self.user_position.principal_lamports == 0 {
            Some(ErrorCode::NoPrincipal)
        } else if self.yield_share() is Err {
            Some(self.yield_share()->Err_0)
        } else if self.payout_lamports() > u64::MAX {
            Some(ErrorCode::MathOverflow)
        } else if self.payout_pool_tokens() is Err {
            Some(self.payout_pool_tokens()->Err_0)
        } else if self.payout_pool_tokens()->Ok_0 == 0 {
            Some(ErrorCode::ZeroPayout)
        } else if self.vault_pool_token_ata.amount < self.payout_pool_tokens()->Ok_0 {
            Some(ErrorCode::InsufficientVaultPoolTokens)
        } else {
            None
        }
    }

    /// The accounts once the participant is paid.
    pub open spec fn paid(self) -> Withdraw {
        Withdraw { user_position: UserPosition { withdrawn: true, ..self.user_position }, ..self }
    }

    /// The record of that payout.
    pub open spec fn record(self) -> Withdrawn {
        Withdrawn {
            user: self.user,
            principal_lamports: self.user_position.principal_lamports,
            yield_share_lamports: self.yield_share()->Ok_0,
            payout_lamports: self.payout_lamports() as u64,
            payout_pool_tokens: self.payout_pool_tokens()->Ok_0,
        }
    }

    /// `order` pays the participant: the payout's pool tokens, out of the
    /// vault's account into the participant's, signed as the vault.
    pub open spec fn pays(self, order: Transfer) -> bool {
        &&& order.from == self.vault_pool_token_ata.key
        &&& order.to == self.user_pool_token_ata
        &&& order.amount == self.payout_pool_tokens()->Ok_0
        &&& is_vault_authority(
            order.signer_seeds@,
            self.season_state_key,
            self.season_state.vault_authority_bump,
        )
    }
}

/// Pays the participant out: marks the position as withdrawn and hands back
/// the transfer to carry out, with the record of the payout. The payout is
/// the principal and the share of the yield by points, rounded down, in
/// pool tokens at the snapshot's rate, rounded up. A payout of no pool
/// tokens would be refused with `ZeroPayout`; rounded up, none comes to
/// that.
pub fn withdraw(ctx: &mut Withdraw) -> (result: Result<(Transfer, Withdrawn), ErrorCode>)
    ensures
        match old(ctx).rejection() {
            Some(error) => result == Err::<(Transfer, Withdrawn), ErrorCode>(error) && *final(ctx)
                == *old(ctx),
            None => {
                &&& *final(ctx) == old(ctx).paid()
                &&& result matches Ok((order, record))
                &&& old(ctx).pays(order)
                &&& record == old(ctx).record()
                &&& order.amount > 0
            },
        },
        result != Err::<(Transfer, Withdrawn), ErrorCode>(ErrorCode::ZeroPayout),
        old(ctx).season_state.wf() ==> final(ctx).season_state.wf(),
{
    if ctx.user_position.user != ctx.user {
        return Err(ErrorCode::InvalidUserPosition);
    }
    if ctx.vault_pool_token_ata.key != ctx.season_state.vault_pool_token_ata {
        return Err(ErrorCode::ConstraintAddress);
    }
    if ctx.pool_mint != ctx.season_state.pool_mint {
        return Err(ErrorCode::ConstraintAddress);
    }
    if !ctx.season_state.finalized {
        return Err(ErrorCode::SeasonNotFinalized);
    }
    if ctx.user_position.withdrawn {
        return Err(ErrorCode::AlreadyWithdrawn);
    }
    if !(ctx.user_position.principal_lamports > 0) {
        return Err(ErrorCode::NoPrincipal);
    }
    let principal = ctx.user_position.principal_lamports;
    let yield_share = match yield_share_floor(
        ctx.season_state.final_total_yield_lamports,
        ctx.user_position.points,
        ctx.season_state.total_points,
    ) {
        Ok(lamports) => lamports,
        Err(error) => {
            return Err(error);
        },
    };
    let payout_lamports = match principal.checked_add(yield_share) {
        Some(sum) => sum,
        None => {
            return Err(ErrorCode::MathOverflow);
        },
    };
    let payout_pool_tokens = match lamports_to_pool_tokens_ceil(
        payout_lamports,
        ctx.season_state.final_total_assets_lamports,
        ctx.season_state.final_vault_pool_tokens,
    ) {
        Ok(tokens) => tokens,
        Err(error) => {
            return Err(error);
        },
    };
    if !(payout_pool_tokens > 0) {
        return Err(ErrorCode::ZeroPayout);
    }
    if !(ctx.vault_pool_token_ata.amount >= payout_pool_tokens) {
        return Err(ErrorCode::InsufficientVaultPoolTokens);
    }
    let signer_seeds = vault_authority_signer_seeds(
        &ctx.season_state_key,
        ctx.season_state.vault_authority_bump,
    );
    let order = Transfer {
        from: ctx.vault_pool_token_ata.key,
        to: ctx.user_pool_token_ata,
        amount: payout_pool_tokens,
        signer_seeds,
    };
    ctx.user_position.withdrawn = true;

    Ok(
        (
            order,
            Withdrawn {
                user: ctx.user,
                principal_lamports: principal,
                yield_share_lamports: yield_share,
                payout_lamports,
                payout_pool_tokens,
            },
        ),
    )
}

} // verus!

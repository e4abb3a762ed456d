//! Handing the right to award points from one game engine to the next, in
//! two steps: the owner proposes, the proposed identity accepts.

use vstd::prelude::*;
use crate::error::ErrorCode;
use crate::events::{GameEngineAccepted, GameEngineProposed};
use crate::pubkey::Pubkey;
use crate::state::SeasonState;

verus! {

/// The accounts of `propose_game_engine`: the signer and the ledger.
#[derive(Clone, Copy, Debug, PartialEq, Eq)]
pub struct ProposeGameEngine {
    pub owner: Pubkey,
    pub season_state: SeasonState,
}

impl ProposeGameEngine {
    /// Why the proposal of `new_game_engine` at `now` is refused, if it is:
    /// the signer is not the owner, nobody is proposed, or deposits have
    /// opened.
    pub open spec fn rejection(self, new_game_engine: Pubkey, now: i64) -> Option<ErrorCode> {
        if self.season_state.owner != self.owner {
            Some(ErrorCode::ConstraintHasOne)
        } else if new_game_engine == Pubkey::null() {
            Some(ErrorCode::InvalidAuthority)
        } else if !(now < self.season_state.deposit_start) {
            Some(ErrorCode::GameEngineFrozen)
        } else {
            None
        }
    }

    /// The accounts once `new_game_engine` is proposed.
    pub open spec fn proposed(self, new_game_engine: Pubkey) -> ProposeGameEngine {
        ProposeGameEngine {
            season_state: SeasonState {
                pending_game_engine: new_game_engine,
                ..self.season_state
            },
            ..self
        }
    }

    /// The record of that proposal.
    pub open spec fn record(self, new_game_engine: Pubkey) -> GameEngineProposed {
        GameEngineProposed {
            current_game_engine: self.season_state.game_engine,
            proposed_game_engine: new_game_engine,
        }
    }
}

/// Proposes `new_game_engine` as the next game engine. Only the owner may,
/// and only before deposits open; an earlier proposal is replaced.
pub fn propose_game_engine(ctx: &mut ProposeGameEngine, new_game_engine: Pubkey, now: i64) -> (result:
    Result<GameEngineProposed, ErrorCode>)
    ensures
        match old(ctx).rejection(new_game_engine, now) {
            Some(error) => result == Err::<GameEngineProposed, ErrorCode>(error) && *final(ctx)
                == *old(ctx),
            None => {
                &&& *final(ctx) == old(ctx).proposed(new_game_engine)
                &&& result == Ok::<GameEngineProposed, ErrorCode>(
                    old(ctx).record(new_game_engine),
                )
            },
        },
        old(ctx).season_state.wf() ==> final(ctx).season_state.wf(),
{
    if ctx.season_state.owner != ctx.owner {
        return Err(ErrorCode::ConstraintHasOne);
    }
    if new_game_engine == Pubkey::default() {
        return Err(ErrorCode::InvalidAuthority);
    }
    if !(now < ctx.season_state.deposit_start) {
        return Err(ErrorCode::GameEngineFrozen);
    }
    ctx.season_state.pending_game_engine = new_game_engine;

    Ok(
        GameEngineProposed {
            current_game_engine: ctx.season_state.game_engine,
            proposed_game_engine: new_game_engine,
        },
    )
}

/// The accounts of `accept_game_engine`: the signer and the ledger.
#[derive(Clone, Copy, Debug, PartialEq, Eq)]
pub struct AcceptGameEngine {
    pub proposed_game_engine: Pubkey,
    pub season_state: SeasonState,
}

impl AcceptGameEngine {
    /// Why the signer's acceptance is refused, if it is: nobody is proposed,
    /// or somebody else is.
    pub open spec fn rejection(self) -> Option<ErrorCode> {
        if self.season_state.pending_game_engine == Pubkey::null() {
            Some(ErrorCode::NoPendingGameEngine)
        } else if self.proposed_game_engine != self.season_state.pending_game_engine {
            Some(ErrorCode::UnauthorizedGameEngineAccept)
        } else {
            None
        }
    }

    /// The accounts once the proposed identity is the game engine.
    pub open spec fn accepted(self) -> AcceptGameEngine {
        AcceptGameEngine {
            season_state: SeasonState {
                game_engine: self.season_state.pending_game_engine,
                pending_game_engine: Pubkey::null(),
                ..self.season_state
            },
            ..self
        }
    }

    /// The record of that hand-over.
    pub open spec fn record(self) -> GameEngineAccepted {
        GameEngineAccepted {
            previous_game_engine: self.season_state.game_engine,
            new_game_engine: self.season_state.pending_game_engine,
        }
    }
}

/// Makes the proposed identity the game engine. Only that identity may; the
/// proposal is then spent.
pub fn accept_game_engine(ctx: &mut AcceptGameEngine) -> (result: Result<
    GameEngineAccepted,
    ErrorCode,
>)
    ensures
        match old(ctx).rejection() {
            Some(error) => result == Err::<GameEngineAccepted, ErrorCode>(error) && *final(ctx)
                == *old(ctx),
            None => {
                &&& *final(ctx) == old(ctx).accepted()
                &&& result == Ok::<GameEngineAccepted, ErrorCode>(old(ctx).record())
            },
        },
        old(ctx).season_state.wf() ==> final(ctx).season_state.wf(),
{
    if ctx.season_state.pending_game_engine == Pubkey::default() {
        return Err(ErrorCode::NoPendingGameEngine);
    }
    if ctx.proposed_game_engine != ctx.season_state.pending_game_engine {
        return Err(ErrorCode::UnauthorizedGameEngineAccept);
    }
    let previous = ctx.season_state.game_engine;
    ctx.season_state.game_engine = ctx.season_state.pending_game_engine;
    ctx.season_state.pending_game_engine = Pubkey::default();

    Ok(
        GameEngineAccepted {
            previous_game_engine: previous,
            new_game_engine: ctx.season_state.game_engine,
        },
    )
}

} // verus!

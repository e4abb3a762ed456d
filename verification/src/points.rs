//! Points: the game engine credits them to positions while the season runs.

use vstd::prelude::*;
use crate::error::ErrorCode;
use crate::events::PointsAwarded;
use crate::pubkey::Pubkey;
use crate::state::{SeasonState, UserPosition};

verus! {

/// The accounts of `award_points`: the signer, the ledger, and the position
/// to credit.
#[derive(Clone, Copy, Debug, PartialEq, Eq)]
pub struct AwardPoints {
    pub game_engine: Pubkey,
    pub season_state: SeasonState,
    pub user_position: UserPosition,
}

impl AwardPoints {
    /// Why an award of `delta` points at `now` is refused, if it is: the
    /// signer is not the game engine, the season is closed, the clock is
    /// outside `[deposit_start, season_end)`, or a count of points would
    /// pass 64 bits.
    pub open spec fn rejection(self, delta: u64, now: i64) -> Option<ErrorCode> {
        if self.season_state.game_engine != self.game_engine {
            Some(ErrorCode::UnauthorizedGameEngine)
        } else if self.season_state.finalized {
            Some(ErrorCode::SeasonAlreadyFinalized)
        } else if !self.season_state.points_window_open(now) {
            Some(ErrorCode::PointsWindowClosed)
        } else if delta == 0 {
            None
        } else if self.user_position.points + delta > u64::MAX {
            Some(ErrorCode::MathOverflow)
        } else if self.season_state.total_points + delta > u64::MAX {
            Some(ErrorCode::MathOverflow)
        } else {
            None
        }
    }

    /// The accounts once `delta` points are credited: that many more on the
    /// position and in the ledger's total.
    pub open spec fn awarded(self, delta: u64) -> AwardPoints {
        AwardPoints {
            season_state: SeasonState {
                total_points: (self.season_state.total_points + delta) as u64,
                ..self.season_state
            },
            user_position: UserPosition {
                points: (self.user_position.points + delta) as u64,
                ..self.user_position
            },
            ..self
        }
    }

    /// The record of that award; an award of nothing leaves none.
    pub open spec fn record(self, delta: u64) -> Option<PointsAwarded> {
        if delta == 0 {
            None
        } else {
            Some(
                PointsAwarded {
                    user: self.user_position.user,
                    delta,
                    new_user_points: self.awarded(delta).user_position.points,
                    new_total_points: self.awarded(delta).season_state.total_points,
                },
            )
        }
    }
}

/// Credits `delta` points to the position. Only the game engine may, from
/// `deposit_start` until `season_end` and before the season is closed. An
/// award of zero points is accepted and changes nothing.
pub fn award_points(ctx: &mut AwardPoints, delta: u64, now: i64) -> (result: Result<
    Option<PointsAwarded>,
    ErrorCode,
>)
    ensures
        match old(ctx).rejection(delta, now) {
            Some(error) => result == Err::<Option<PointsAwarded>, ErrorCode>(error) && *final(ctx)
                == *old(ctx),
            None => {
                &&& *final(ctx) == old(ctx).awarded(delta)
                &&& result == Ok::<Option<PointsAwarded>, ErrorCode>(old(ctx).record(delta))
            },
        },
        delta == 0 ==> *final(ctx) == *old(ctx),
        old(ctx).season_state.wf() ==> final(ctx).season_state.wf(),
{
    if ctx.season_state.game_engine != ctx.game_engine {
        return Err(ErrorCode::UnauthorizedGameEngine);
    }
    if ctx.season_state.finalized {
        return Err(ErrorCode::SeasonAlreadyFinalized);
    }
    if !(now >= ctx.season_state.deposit_start && now < ctx.season_state.season_end) {
        return Err(ErrorCode::PointsWindowClosed);
    }
    if delta == 0 {
        return Ok(None);
    }
    let new_user_points = match ctx.user_position.points.checked_add(delta) {
        Some(sum) => sum,
        None => {
            return Err(ErrorCode::MathOverflow);
        },
    };
    let new_total_points = match ctx.season_state.total_points.checked_add(delta) {
        Some(sum) => sum,
        None => {
            return Err(ErrorCode::MathOverflow);
        },
    };
    ctx.user_position.points = new_user_points;
    ctx.season_state.total_points = new_total_points;

    Ok(
        Some(
            PointsAwarded {
                user: ctx.user_position.user,
                delta,
                new_user_points,
                new_total_points,
            },
        ),
    )
}

} // verus!

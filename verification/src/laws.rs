//! What holds of a season whatever is called on it, in whatever order.

use vstd::prelude::*;
use crate::error::ErrorCode;
use crate::finalization::Finalize;
use crate::initialization::InitializeSeason;
use crate::math::{lemma_ceil_bounds, lemma_floor_bounds, mul_div_floor};
use crate::pubkey::Pubkey;
use crate::season::{
    lemma_sum_bounds,
    lemma_sum_push,
    lemma_sum_update,
    points,
    principals,
    sum,
    Call,
    Season,
};
use crate::stake_pool::ExchangeRate;
use crate::state::{Phase, UserPosition};
use crate::withdrawal::Withdraw;

verus! {

/// A record written over a position changes the two sums by what it adds.
proof fn lemma_sums_after_update(positions: Seq<UserPosition>, i: int, position: UserPosition)
    requires
        0 <= i < positions.len(),
    ensures
        sum(principals(positions.update(i, position))) == sum(principals(positions))
            - positions[i].principal_lamports + position.principal_lamports,
        sum(points(positions.update(i, position))) == sum(points(positions)) - positions[i].points
            + position.points,
{
    assert(principals(positions.update(i, position)) =~= principals(positions).update(
        i,
        position.principal_lamports as int,
    ));
    lemma_sum_update(principals(positions), i, position.principal_lamports as int);
    assert(points(positions.update(i, position)) =~= points(positions).update(
        i,
        position.points as int,
    ));
    lemma_sum_update(points(positions), i, position.points as int);
}

/// A record added to the positions adds what it holds to the two sums.
proof fn lemma_sums_after_push(positions: Seq<UserPosition>, position: UserPosition)
    ensures
        sum(principals(positions.push(position))) == sum(principals(positions))
            + position.principal_lamports,
        sum(points(positions.push(position))) == sum(points(positions)) + position.points,
{
    assert(principals(positions.push(position)) =~= principals(positions).push(
        position.principal_lamports as int,
    ));
    lemma_sum_push(principals(positions), position.principal_lamports as int);
    assert(points(positions.push(position)) =~= points(positions).push(position.points as int));
    lemma_sum_push(points(positions), position.points as int);
}

/// A season is sound when it opens: its schedule is ordered, it has a game
/// engine, and its totals are those of no positions at all.
pub proof fn law_opened_season_is_sound(
    ctx: InitializeSeason,
    deposit_start: i64,
    deposit_end: i64,
    season_end: i64,
    game_engine: Pubkey,
)
    requires
        InitializeSeason::rejection(deposit_start, deposit_end, season_end, game_engine) is None,
    ensures
        (Season {
            ledger: ctx.opened(deposit_start, deposit_end, season_end, game_engine),
            positions: Seq::empty(),
        }).sound(),
        ctx.opened(deposit_start, deposit_end, season_end, game_engine).schedule_ordered(),
{
    assert(principals(Seq::<UserPosition>::empty()) =~= Seq::<int>::empty());
    assert(points(Seq::<UserPosition>::empty()) =~= Seq::<int>::empty());
}

/// A sound season is sound after any call: the ledger's principal stays the
/// sum of the positions' principals, its points the sum of their points,
/// its schedule ordered, and nobody is paid before it is closed.
pub proof fn law_sound_after_call(season: Season, call: Call)
    requires
        season.sound(),
        call.admissible(),
    ensures
        season.after(call).sound(),
{
    let next = season.after(call);
    if season.accepts(call) {
        match call {
            Call::ProposeGameEngine { owner, new_game_engine, now } => {},
            Call::AcceptGameEngine { proposed_game_engine } => {},
            Call::DepositSol { accounts, amount_lamports, after_tokens, now } => {
                let ctx = season.deposit_accounts(accounts);
                let done = ctx.deposited(amount_lamports, after_tokens);
                if season.has_position(accounts.user) {
                    let slot = season.slot_of(accounts.user);
                    assert(ctx.position_to_credit() == season.positions[slot]);
                    lemma_sums_after_update(season.positions, slot, done.user_position);
                    assert(next.positions_distinct());
                } else {
                    assert(ctx.position_to_credit().principal_lamports == 0);
                    lemma_sums_after_push(season.positions, done.user_position);
                    assert forall|i: int| 0 <= i < season.positions.len() implies (
                    #[trigger] season.positions[i]).user != accounts.user by {
                        if season.positions[i].user == accounts.user {
                            assert(season.has_position(accounts.user));
                        }
                    }
                    assert(next.positions_distinct());
                }
                assert(next.payouts_follow_closing());
            },
            Call::AwardPoints { game_engine, user, delta, now } => {
                let ctx = season.award_accounts(game_engine, user);
                let slot = season.slot_of(user);
                lemma_sums_after_update(season.positions, slot, ctx.awarded(delta).user_position);
                assert(next.positions_distinct());
                assert(next.payouts_follow_closing());
            },
            Call::Finalize { accounts, pool_state, now } => {},
            Call::Withdraw { accounts } => {
                let ctx = season.withdraw_accounts(accounts);
                let slot = season.slot_of(accounts.user);
                lemma_sums_after_update(season.positions, slot, ctx.paid().user_position);
                assert(next.positions_distinct());
            },
        }
    }
}

/// A sound season stays sound for good: after any number of calls, the
/// ledger's principal is the sum of the positions' principals, and
/// `deposit_start < deposit_end < season_end`.
pub proof fn law_sound_forever(season: Season, calls: Seq<Call>, n: int)
    requires
        season.sound(),
        0 <= n <= calls.len(),
        forall|i: int| 0 <= i < calls.len() ==> (#[trigger] calls[i]).admissible(),
    ensures
        season.after_first(calls, n).sound(),
        season.after_first(calls, n).ledger.total_principal_lamports == sum(
            principals(season.after_first(calls, n).positions),
        ),
        season.after_first(calls, n).ledger.schedule_ordered(),
    decreases n,
{
    if n > 0 {
        law_sound_forever(season, calls, n - 1);
        law_sound_after_call(season.after_first(calls, n - 1), calls[n - 1]);
    }
}

/// Each call is accepted in its own phase only: a proposal before deposits
/// open, a deposit while they are open, an award from then until the season
/// ends, the closing once it has ended, a payout once it is closed.
pub proof fn law_calls_follow_phases(season: Season, call: Call)
    requires
        season.ledger.schedule_ordered(),
        season.accepts(call),
    ensures
        match call {
            Call::ProposeGameEngine { now, .. } => season.ledger.phase_at(now) == Phase::Created
                || season.ledger.finalized,
            Call::AcceptGameEngine { .. } => true,
            Call::DepositSol { now, .. } => season.ledger.phase_at(now) == Phase::DepositOpen,
            Call::AwardPoints { now, .. } => season.ledger.phase_at(now) == Phase::DepositOpen
                || season.ledger.phase_at(now) == Phase::PointsOpen,
            Call::Finalize { now, .. } => season.ledger.phase_at(now) == Phase::SeasonEnded,
            Call::Withdraw { .. } => season.ledger.finalized,
        },
{
}

/// No call moves the schedule, nor the accounts that the ledger records.
pub proof fn law_schedule_is_fixed(season: Season, call: Call)
    ensures
        season.after(call).ledger.deposit_start == season.ledger.deposit_start,
        season.after(call).ledger.deposit_end == season.ledger.deposit_end,
        season.after(call).ledger.season_end == season.ledger.season_end,
        season.after(call).ledger.owner == season.ledger.owner,
        season.after(call).ledger.stake_pool_program_id == season.ledger.stake_pool_program_id,
        season.after(call).ledger.stake_pool == season.ledger.stake_pool,
        season.after(call).ledger.pool_mint == season.ledger.pool_mint,
        season.after(call).ledger.vault_pool_token_ata == season.ledger.vault_pool_token_ata,
{
}

/// A closed season stays closed, and its totals and its snapshot stay as
/// they were when it was closed.
pub proof fn law_closed_season_is_frozen(season: Season, call: Call)
    requires
        season.ledger.finalized,
    ensures
        season.after(call).ledger.finalized,
        season.after(call).ledger.total_principal_lamports
            == season.ledger.total_principal_lamports,
        season.after(call).ledger.total_points == season.ledger.total_points,
        season.after(call).ledger.final_total_assets_lamports
            == season.ledger.final_total_assets_lamports,
        season.after(call).ledger.final_total_yield_lamports
            == season.ledger.final_total_yield_lamports,
        season.after(call).ledger.final_vault_pool_tokens == season.ledger.final_vault_pool_tokens,
        season.after(call).ledger.carry_over_yield_lamports
            == season.ledger.carry_over_yield_lamports,
        !(call is Finalize && season.accepts(call)),
{
}

/// Closing succeeds once at most: of two calls that close the season, the
/// later one is refused where the earlier one was accepted, whatever was
/// called in between.
pub proof fn law_finalize_succeeds_once(season: Season, calls: Seq<Call>, first: int, second: int)
    requires
        0 <= first < second < calls.len(),
        calls[first] is Finalize,
        calls[second] is Finalize,
        season.after_first(calls, first).accepts(calls[first]),
    ensures
        !season.after_first(calls, second).accepts(calls[second]),
{
    lemma_closed_from(season, calls, first, second);
    law_closed_season_is_frozen(season.after_first(calls, second), calls[second]);
}

/// Once one of `calls` has closed the season, it is closed after every
/// later one.
proof fn lemma_closed_from(season: Season, calls: Seq<Call>, first: int, n: int)
    requires
        0 <= first < n <= calls.len(),
        calls[first] is Finalize,
        season.after_first(calls, first).accepts(calls[first]),
    ensures
        season.after_first(calls, n).ledger.finalized,
    decreases n,
{
    if n > first + 1 {
        lemma_closed_from(season, calls, first, n - 1);
        law_closed_season_is_frozen(season.after_first(calls, n - 1), calls[n - 1]);
    }
}

/// `user` has been paid: the season is closed, and the position is marked.
pub open spec fn paid_out(season: Season, user: Pubkey) -> bool {
    &&& season.ledger.finalized
    &&& season.has_position(user)
    &&& season.position_of(user).withdrawn
}

/// A payout marks the participant as paid, and a participant who has been
/// paid stays so after any call, and is refused a payout.
pub proof fn law_paid_stays_paid(season: Season, call: Call, user: Pubkey)
    requires
        season.sound(),
        paid_out(season, user) || (call matches Call::Withdraw { accounts } && accounts.user
            == user && season.accepts(call)),
    ensures
        paid_out(season.after(call), user),
        paid_out(season, user) ==> !(call matches Call::Withdraw { accounts } && accounts.user
            == user && season.accepts(call)),
{
    let next = season.after(call);
    if paid_out(season, user) {
        law_closed_season_is_frozen(season, call);
        let slot = season.slot_of(user);
        if season.accepts(call) {
            match call {
                Call::Withdraw { accounts } => {
                    assert(next.positions[slot].user == user);
                    assert(next.has_position(user));
                    let after_slot = next.slot_of(user);
                    assert(after_slot == slot) by {
                        if after_slot != slot {
                            assert(next.positions[after_slot].user == season.positions[after_slot].user);
                        }
                    }
                },
                _ => {
                    assert(next.positions == season.positions);
                },
            }
        }
    } else {
        match call {
            Call::Withdraw { accounts } => {
                let slot = season.slot_of(user);
                assert(next.positions[slot].user == user);
                assert(next.has_position(user));
                let after_slot = next.slot_of(user);
                assert(after_slot == slot) by {
                    if after_slot != slot {
                        assert(next.positions[after_slot].user == season.positions[after_slot].user);
                    }
                }
            },
            _ => {},
        }
    }
}

/// A payout succeeds once at most for each participant: of two payouts to
/// the same participant, the later one is refused where the earlier one was
/// accepted, whatever was called in between.
pub proof fn law_withdraw_succeeds_once(
    season: Season,
    calls: Seq<Call>,
    first: int,
    second: int,
    user: Pubkey,
)
    requires
        season.sound(),
        forall|i: int| 0 <= i < calls.len() ==> (#[trigger] calls[i]).admissible(),
        0 <= first < second < calls.len(),
        calls[first] matches Call::Withdraw { accounts } && accounts.user == user,
        calls[second] matches Call::Withdraw { accounts } && accounts.user == user,
        season.after_first(calls, first).accepts(calls[first]),
    ensures
        !season.after_first(calls, second).accepts(calls[second]),
{
    lemma_paid_from(season, calls, first, second, user);
    law_sound_forever(season, calls, second);
    law_paid_stays_paid(season.after_first(calls, second), calls[second], user);
}

/// Once one of `calls` has paid `user`, `user` is paid after every later
/// one.
proof fn lemma_paid_from(season: Season, calls: Seq<Call>, first: int, n: int, user: Pubkey)
    requires
        season.sound(),
        forall|i: int| 0 <= i < calls.len() ==> (#[trigger] calls[i]).admissible(),
        0 <= first < n <= calls.len(),
        calls[first] matches Call::Withdraw { accounts } && accounts.user == user,
        season.after_first(calls, first).accepts(calls[first]),
    ensures
        paid_out(season.after_first(calls, n), user),
    decreases n,
{
    law_sound_forever(season, calls, n - 1);
    if n > first + 1 {
        lemma_paid_from(season, calls, first, n - 1, user);
    }
    law_paid_stays_paid(season.after_first(calls, n - 1), calls[n - 1], user);
}

/// Where nobody holds points when the season is closed, the yield is added
/// whole to what is carried over, and a payout from the season so closed
/// holds no share of it: it is the principal.
pub proof fn law_yield_without_points_is_carried_over(
    closing: Finalize,
    rate: ExchangeRate,
    now: i64,
    payout: Withdraw,
)
    requires
        closing.rejection(Some(rate), now) is None,
        closing.season_state.total_points == 0,
        payout.season_state == closing.finalized(rate).season_state,
    ensures
        closing.finalized(rate).season_state.carry_over_yield_lamports
            == closing.season_state.carry_over_yield_lamports + closing.total_yield(rate),
        payout.yield_share() == Ok::<u64, ErrorCode>(0u64),
        payout.rejection() is None ==> payout.record().yield_share_lamports == 0
            && payout.record().payout_lamports == payout.user_position.principal_lamports,
{
}

/// How a payout is rounded: the share of the yield down, so that
/// `share * total_points <= yield * points`; the pool tokens up, so that
/// they are worth no less than the payout at the snapshot's rate, and less
/// than one pool token more.
pub proof fn law_payout_rounding(payout: Withdraw)
    requires
        payout.rejection() is None,
    ensures
        payout.season_state.total_points > 0 ==> payout.record().yield_share_lamports
            * payout.season_state.total_points <= payout.season_state.final_total_yield_lamports
            * payout.user_position.points,
        payout.season_state.total_points > 0 ==> payout.season_state.final_total_yield_lamports
            * payout.user_position.points < (payout.record().yield_share_lamports + 1)
            * payout.season_state.total_points,
        payout.record().payout_pool_tokens * payout.season_state.final_total_assets_lamports
            >= payout.record().payout_lamports * payout.season_state.final_vault_pool_tokens,
        (payout.record().payout_pool_tokens - 1) * payout.season_state.final_total_assets_lamports
            < payout.record().payout_lamports * payout.season_state.final_vault_pool_tokens,
        payout.record().payout_pool_tokens >= mul_div_floor(
            payout.record().payout_lamports,
            payout.season_state.final_vault_pool_tokens,
            payout.season_state.final_total_assets_lamports,
        ),
        payout.record().payout_pool_tokens >= 1,
{
    let state = payout.season_state;
    if state.total_points > 0 {
        lemma_floor_bounds(
            state.final_total_yield_lamports,
            payout.user_position.points,
            state.total_points,
        );
    }
    let lamports = payout.record().payout_lamports;
    assert(lamports > 0);
    assert(state.final_total_assets_lamports > 0);
    lemma_ceil_bounds(lamports, state.final_vault_pool_tokens, state.final_total_assets_lamports);
    lemma_floor_bounds(lamports, state.final_vault_pool_tokens, state.final_total_assets_lamports);
    assert((lamports as int) * (state.final_vault_pool_tokens as int) > 0) by (nonlinear_arith)
        requires
            lamports > 0,
            state.final_vault_pool_tokens > 0,
    ;
}

/// In a sound season no position holds more points than there are in all,
/// so no share of the yield is more than the yield, and none passes 64
/// bits.
pub proof fn law_share_within_yield(season: Season, payout: Withdraw)
    requires
        season.sound(),
        season.has_position(payout.user),
    ensures
        season.withdraw_accounts(payout).yield_share() is Ok,
        season.withdraw_accounts(payout).yield_share()->Ok_0
            <= season.ledger.final_total_yield_lamports,
{
    let slot = season.slot_of(payout.user);
    lemma_sum_bounds(points(season.positions), slot);
    if season.ledger.total_points > 0 {
        crate::math::lemma_share_within_yield(
            season.ledger.final_total_yield_lamports,
            season.positions[slot].points,
            season.ledger.total_points,
        );
    }
}

/// The share of the yield that falls to each position, in order, where
/// there are `total_points` points in all.
pub open spec fn yield_shares(
    positions: Seq<UserPosition>,
    final_total_yield_lamports: u64,
    total_points: u64,
) -> Seq<int> {
    Seq::new(
        positions.len(),
        |i: int| mul_div_floor(final_total_yield_lamports, positions[i].points, total_points),
    )
}

/// The shares times the points in all are no more than the yield times the
/// points of the positions.
proof fn lemma_shares_by_points(
    positions: Seq<UserPosition>,
    final_total_yield_lamports: u64,
    total_points: u64,
)
    requires
        total_points > 0,
    ensures
        sum(yield_shares(positions, final_total_yield_lamports, total_points)) * total_points
            <= final_total_yield_lamports * sum(points(positions)),
    decreases positions.len(),
{
    let shares = yield_shares(positions, final_total_yield_lamports, total_points);
    if positions.len() > 0 {
        let rest = positions.drop_last();
        let last = positions.last();
        assert(shares.drop_last() =~= yield_shares(rest, final_total_yield_lamports, total_points));
        assert(points(positions).drop_last() =~= points(rest));
        lemma_shares_by_points(rest, final_total_yield_lamports, total_points);
        lemma_floor_bounds(final_total_yield_lamports, last.points, total_points);
        let share = mul_div_floor(final_total_yield_lamports, last.points, total_points);
        let before = sum(shares.drop_last());
        let points_before = sum(points(rest));
        assert((before + share) * total_points <= final_total_yield_lamports * (points_before
            + last.points)) by (nonlinear_arith)
            requires
                before * total_points <= final_total_yield_lamports * points_before,
                share * total_points <= final_total_yield_lamports * last.points,
        ;
    } else {
        assert(sum(shares) * total_points == 0) by (nonlinear_arith)
            requires
                sum(shares) == 0,
        ;
        assert(final_total_yield_lamports * sum(points(positions)) == 0) by (nonlinear_arith)
            requires
                sum(points(positions)) == 0,
        ;
    }
}

/// All the shares of the yield together are no more than the yield: what
/// rounding down leaves over stays in the vault.
pub proof fn law_shares_leave_the_remainder(season: Season)
    requires
        season.sound(),
        season.ledger.total_points > 0,
    ensures
        sum(
            yield_shares(
                season.positions,
                season.ledger.final_total_yield_lamports,
                season.ledger.total_points,
            ),
        ) <= season.ledger.final_total_yield_lamports,
{
    let total_yield = season.ledger.final_total_yield_lamports;
    let total_points = season.ledger.total_points;
    let shares = sum(yield_shares(season.positions, total_yield, total_points));
    lemma_shares_by_points(season.positions, total_yield, total_points);
    assert(shares <= total_yield) by (nonlinear_arith)
        requires
            shares * total_points <= total_yield * total_points,
            total_points > 0,
    ;
}

} // verus!

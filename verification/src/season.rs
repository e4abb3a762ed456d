//! A season as a whole: the ledger together with every position, and the
//! calls that move it from one state to the next. Nothing here is compiled;
//! it is the model over which the vault's invariants are stated.

use vstd::prelude::*;
use crate::deposits::DepositSol;
use crate::finalization::Finalize;
use crate::governance::{AcceptGameEngine, ProposeGameEngine};
use crate::points::AwardPoints;
use crate::pubkey::Pubkey;
use crate::stake_pool::ExchangeRate;
use crate::state::{SeasonState, UserPosition};
use crate::withdrawal::Withdraw;

verus! {

/// The sum of `values`.
pub open spec fn sum(values: Seq<int>) -> int
    decreases values.len(),
{
    if values.len() == 0 {
        0
    } else {
        sum(values.drop_last()) + values.last()
    }
}

/// The principal of each position, in order.
pub open spec fn principals(positions: Seq<UserPosition>) -> Seq<int> {
    Seq::new(positions.len(), |i: int| positions[i].principal_lamports as int)
}

/// The points of each position, in order.
pub open spec fn points(positions: Seq<UserPosition>) -> Seq<int> {
    Seq::new(positions.len(), |i: int| positions[i].points as int)
}

/// One more value adds itself to the sum.
pub proof fn lemma_sum_push(values: Seq<int>, value: int)
    ensures
        sum(values.push(value)) == sum(values) + value,
{
    assert(values.push(value).drop_last() =~= values);
}

/// A value replaced changes the sum by the difference.
pub proof fn lemma_sum_update(values: Seq<int>, i: int, value: int)
    requires
        0 <= i < values.len(),
    ensures
        sum(values.update(i, value)) == sum(values) - values[i] + value,
    decreases values.len(),
{
    if i == values.len() - 1 {
        assert(values.update(i, value).drop_last() =~= values.drop_last());
    } else {
        assert(values.update(i, value).drop_last() =~= values.drop_last().update(i, value));
        lemma_sum_update(values.drop_last(), i, value);
    }
}

/// Values that are none below zero have a sum that is not below zero.
pub proof fn lemma_sum_nonnegative(values: Seq<int>)
    requires
        forall|j: int| 0 <= j < values.len() ==> values[j] >= 0,
    ensures
        sum(values) >= 0,
    decreases values.len(),
{
    if values.len() > 0 {
        lemma_sum_nonnegative(values.drop_last());
    }
}

/// No value is larger than the sum of values that are none below zero.
pub proof fn lemma_sum_bounds(values: Seq<int>, i: int)
    requires
        0 <= i < values.len(),
        forall|j: int| 0 <= j < values.len() ==> values[j] >= 0,
    ensures
        0 <= values[i] <= sum(values),
    decreases values.len(),
{
    if i == values.len() - 1 {
        lemma_sum_nonnegative(values.drop_last());
    } else {
        lemma_sum_bounds(values.drop_last(), i);
    }
}

/// A season: its ledger and the positions taken in it, in the order in
/// which they were opened.
pub struct Season {
    pub ledger: SeasonState,
    pub positions: Seq<UserPosition>,
}

/// A call on the vault, with what the caller and the world outside hand in.
/// Where a call names accounts, the ledger and the position among them are
/// those of the season it is made on, whatever the value here holds.
#[allow(inconsistent_fields)]
pub enum Call {
    ProposeGameEngine { owner: Pubkey, new_game_engine: Pubkey, now: i64 },
    AcceptGameEngine { proposed_game_engine: Pubkey },
    DepositSol { accounts: DepositSol, amount_lamports: u64, after_tokens: u64, now: i64 },
    AwardPoints { game_engine: Pubkey, user: Pubkey, delta: u64, now: i64 },
    Finalize { accounts: Finalize, pool_state: Option<ExchangeRate>, now: i64 },
    Withdraw { accounts: Withdraw },
}

impl Call {
    /// A deposit is never made by the null identity: a record with that
    /// user counts as belonging to nobody.
    pub open spec fn admissible(self) -> bool {
        self matches Call::DepositSol { accounts, .. } ==> accounts.user != Pubkey::null()
    }
}

impl Season {
    /// `user` has a position in the season.
    pub open spec fn has_position(self, user: Pubkey) -> bool {
        exists|i: int| 0 <= i < self.positions.len() && #[trigger] self.positions[i].user == user
    }

    /// Where `user`'s position stands.
    pub open spec fn slot_of(self, user: Pubkey) -> int
        recommends
            self.has_position(user),
    {
        choose|i: int| 0 <= i < self.positions.len() && #[trigger] self.positions[i].user == user
    }

    /// The record at `user`'s address: the position, or a vacant record.
    pub open spec fn position_of(self, user: Pubkey) -> UserPosition {
        if self.has_position(user) {
            self.positions[self.slot_of(user)]
        } else {
            UserPosition::vacant()
        }
    }

    /// The positions with `position` written at `user`'s address.
    pub open spec fn with_position(self, user: Pubkey, position: UserPosition) -> Seq<
        UserPosition,
    > {
        if self.has_position(user) {
            self.positions.update(self.slot_of(user), position)
        } else {
            self.positions.push(position)
        }
    }

    /// The accounts of a proposal by `owner` on this season.
    pub open spec fn propose_accounts(self, owner: Pubkey) -> ProposeGameEngine {
        ProposeGameEngine { owner, season_state: self.ledger }
    }

    /// The accounts of an acceptance by `proposed_game_engine`.
    pub open spec fn accept_accounts(self, proposed_game_engine: Pubkey) -> AcceptGameEngine {
        AcceptGameEngine { proposed_game_engine, season_state: self.ledger }
    }

    /// The accounts of a deposit on this season: the depositor's record.
    pub open spec fn deposit_accounts(self, accounts: DepositSol) -> DepositSol {
        DepositSol {
            season_state: self.ledger,
            user_position: self.position_of(accounts.user),
            ..accounts
        }
    }

    /// The accounts of an award to `user` by `game_engine`.
    pub open spec fn award_accounts(self, game_engine: Pubkey, user: Pubkey) -> AwardPoints {
        AwardPoints { game_engine, season_state: self.ledger, user_position: self.position_of(user) }
    }

    /// The accounts of closing this season.
    pub open spec fn finalize_accounts(self, accounts: Finalize) -> Finalize {
        Finalize { season_state: self.ledger, ..accounts }
    }

    /// The accounts of a payout on this season: the participant's record.
    pub open spec fn withdraw_accounts(self, accounts: Withdraw) -> Withdraw {
        Withdraw {
            season_state: self.ledger,
            user_position: self.position_of(accounts.user),
            ..accounts
        }
    }

    /// The vault accepts `call` on this season. An award or a payout to
    /// somebody without a position finds no record to work on.
    pub open spec fn accepts(self, call: Call) -> bool {
        match call {
            Call::ProposeGameEngine { owner, new_game_engine, now } => self.propose_accounts(
                owner,
            ).rejection(new_game_engine, now) is None,
            Call::AcceptGameEngine { proposed_game_engine } => self.accept_accounts(
                proposed_game_engine,
            ).rejection() is None,
            Call::DepositSol { accounts, amount_lamports, after_tokens, now } => {
                self.deposit_accounts(accounts).rejection(amount_lamports, after_tokens, now)
                    is None
            },
            Call::AwardPoints { game_engine, user, delta, now } => self.has_position(user)
                && self.award_accounts(game_engine, user).rejection(delta, now) is None,
            Call::Finalize { accounts, pool_state, now } => self.finalize_accounts(
                accounts,
            ).rejection(pool_state, now) is None,
            Call::Withdraw { accounts } => self.has_position(accounts.user)
                && self.withdraw_accounts(accounts).rejection() is None,
        }
    }

    /// The season after `call`: as the operation leaves it where the vault
    /// accepts the call, untouched where it does not.
    pub open spec fn after(self, call: Call) -> Season {
        if !self.accepts(call) {
            self
        } else {
            match call {
                Call::ProposeGameEngine { owner, new_game_engine, now } => Season {
                    ledger: self.propose_accounts(owner).proposed(new_game_engine).season_state,
                    ..self
                },
                Call::AcceptGameEngine { proposed_game_engine } => Season {
                    ledger: self.accept_accounts(proposed_game_engine).accepted().season_state,
                    ..self
                },
                Call::DepositSol { accounts, amount_lamports, after_tokens, now } => {
                    let done = self.deposit_accounts(accounts).deposited(
                        amount_lamports,
                        after_tokens,
                    );
                    Season {
                        ledger: done.season_state,
                        positions: self.with_position(accounts.user, done.user_position),
                    }
                },
                Call::AwardPoints { game_engine, user, delta, now } => {
                    let done = self.award_accounts(game_engine, user).awarded(delta);
                    Season {
                        ledger: done.season_state,
                        positions: self.with_position(user, done.user_position),
                    }
                },
                Call::Finalize { accounts, pool_state, now } => Season {
                    ledger: self.finalize_accounts(accounts).finalized(
                        pool_state->Some_0,
                    ).season_state,
                    ..self
                },
                Call::Withdraw { accounts } => Season {
                    positions: self.with_position(
                        accounts.user,
                        self.withdraw_accounts(accounts).paid().user_position,
                    ),
                    ..self
                },
            }
        }
    }

    /// The season after the first `n` of `calls`, one after the other.
    pub open spec fn after_first(self, calls: Seq<Call>, n: int) -> Season
        recommends
            0 <= n <= calls.len(),
        decreases n,
    {
        if n <= 0 {
            self
        } else {
            self.after_first(calls, n - 1).after(calls[n - 1])
        }
    }

    /// Every position is somebody's, and nobody has two.
    pub open spec fn positions_distinct(self) -> bool {
        &&& forall|i: int|
            0 <= i < self.positions.len() ==> (#[trigger] self.positions[i]).user != Pubkey::null()
        &&& forall|i: int, j: int|
            0 <= i < j < self.positions.len() ==> (#[trigger] self.positions[i]).user != (
            #[trigger] self.positions[j]).user
    }

    /// The books balance: the ledger's totals are the sums over the
    /// positions.
    pub open spec fn books_balance(self) -> bool {
        &&& self.ledger.total_principal_lamports == sum(principals(self.positions))
        &&& self.ledger.total_points == sum(points(self.positions))
    }

    /// Nobody is paid out before the season is closed.
    pub open spec fn payouts_follow_closing(self) -> bool {
        !self.ledger.finalized ==> forall|i: int|
            0 <= i < self.positions.len() ==> !(#[trigger] self.positions[i]).withdrawn
    }

    /// What holds of a season from its opening on.
    pub open spec fn sound(self) -> bool {
        &&& self.ledger.wf()
        &&& self.positions_distinct()
        &&& self.books_balance()
        &&& self.payouts_follow_closing()
    }
}

} // verus!

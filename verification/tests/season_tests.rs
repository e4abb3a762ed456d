use season_vault::{
    award_points, deposit_sol, deposit_sol_instruction, finalize_with_pool_state,
    initialize_season, withdraw, AccountInfo, AccountMeta, AwardPoints, DepositSol, Deposited,
    ErrorCode, ExchangeRate, Finalize, InitializeSeason, Phase, PointsAwarded, Pubkey,
    SeasonFinalized, SeasonInitialized, SeasonState, TokenAccount, UserPosition, Withdraw,
    Withdrawn, VAULT_AUTHORITY_SEED,
};

const OWNER: u8 = 1;
const ENGINE: u8 = 2;
const SEASON: u8 = 3;
const POOL_PROGRAM: u8 = 10;
const POOL: u8 = 11;
const MINT: u8 = 12;
const ESCROW: u8 = 13;
const ALICE: u8 = 21;
const BOB: u8 = 22;

fn key(n: u8) -> Pubkey {
    Pubkey::new_from_array([n; 32])
}

fn open_season() -> SeasonState {
    let mut ctx = InitializeSeason {
        owner: key(OWNER),
        season_state: blank_ledger(),
        vault_pool_token_ata: key(ESCROW),
        stake_pool: key(POOL),
        stake_pool_program: key(POOL_PROGRAM),
        pool_mint: key(MINT),
        season_state_bump: 254,
        vault_authority_bump: 253,
    };
    initialize_season(&mut ctx, 100, 200, 300, key(ENGINE)).unwrap();
    ctx.season_state
}

fn blank_ledger() -> SeasonState {
    SeasonState {
        owner: Pubkey::default(),
        game_engine: Pubkey::default(),
        pending_game_engine: Pubkey::default(),
        deposit_start: 0,
        deposit_end: 0,
        season_end: 0,
        total_principal_lamports: 0,
        total_points: 0,
        finalized: false,
        final_total_assets_lamports: 0,
        final_total_yield_lamports: 0,
        final_vault_pool_tokens: 0,
        carry_over_yield_lamports: 0,
        stake_pool_program_id: Pubkey::default(),
        stake_pool: Pubkey::default(),
        pool_mint: Pubkey::default(),
        vault_pool_token_ata: Pubkey::default(),
        bump: 0,
        vault_authority_bump: 0,
    }
}

fn deposit_accounts(
    ledger: SeasonState,
    position: UserPosition,
    user: u8,
    escrow_tokens: u64,
) -> DepositSol {
    DepositSol {
        user: key(user),
        season_state_key: key(SEASON),
        season_state: ledger,
        user_position: position,
        user_position_bump: 250,
        vault_pool_token_ata: TokenAccount { key: key(ESCROW), amount: escrow_tokens },
        stake_pool: key(POOL),
        stake_pool_program: key(POOL_PROGRAM),
        remaining_accounts: vec![],
    }
}

/// Deposits for `user`, with a stake pool that mints one pool token a lamport.
fn deposit(
    ledger: &mut SeasonState,
    position: &mut UserPosition,
    escrow: &mut u64,
    user: u8,
    amount: u64,
    now: i64,
) -> Result<Deposited, ErrorCode> {
    let mut ctx = deposit_accounts(*ledger, *position, user, *escrow);
    let record = deposit_sol(&mut ctx, amount, *escrow + amount, now)?;
    *ledger = ctx.season_state;
    *position = ctx.user_position;
    *escrow = ctx.vault_pool_token_ata.amount;
    Ok(record)
}

fn award(
    ledger: &mut SeasonState,
    position: &mut UserPosition,
    signer: u8,
    delta: u64,
    now: i64,
) -> Result<Option<PointsAwarded>, ErrorCode> {
    let mut ctx =
        AwardPoints { game_engine: key(signer), season_state: *ledger, user_position: *position };
    let record = award_points(&mut ctx, delta, now)?;
    *ledger = ctx.season_state;
    *position = ctx.user_position;
    Ok(record)
}

fn close(
    ledger: &mut SeasonState,
    escrow: u64,
    rate: ExchangeRate,
    now: i64,
) -> Result<SeasonFinalized, ErrorCode> {
    let mut ctx = Finalize {
        season_state: *ledger,
        vault_pool_token_ata: TokenAccount { key: key(ESCROW), amount: escrow },
        stake_pool: key(POOL),
        stake_pool_data: vec![],
    };
    let record = finalize_with_pool_state(&mut ctx, Some(rate), now)?;
    *ledger = ctx.season_state;
    Ok(record)
}

fn withdraw_accounts(
    ledger: SeasonState,
    position: UserPosition,
    user: u8,
    escrow: u64,
) -> Withdraw {
    Withdraw {
        user: key(user),
        season_state_key: key(SEASON),
        season_state: ledger,
        user_position: position,
        vault_pool_token_ata: TokenAccount { key: key(ESCROW), amount: escrow },
        pool_mint: key(MINT),
        user_pool_token_ata: key(user + 100),
    }
}

fn pay(
    ledger: &SeasonState,
    position: &mut UserPosition,
    escrow: &mut u64,
    user: u8,
) -> Result<Withdrawn, ErrorCode> {
    let mut ctx = withdraw_accounts(*ledger, *position, user, *escrow);
    let (order, record) = withdraw(&mut ctx)?;
    assert_eq!(ctx.season_state, *ledger);
    assert_eq!(order.amount, record.payout_pool_tokens);
    *position = ctx.user_position;
    *escrow -= order.amount;
    Ok(record)
}

#[test]
fn initialize_writes_the_ledger() {
    let mut ctx = InitializeSeason {
        owner: key(OWNER),
        season_state: blank_ledger(),
        vault_pool_token_ata: key(ESCROW),
        stake_pool: key(POOL),
        stake_pool_program: key(POOL_PROGRAM),
        pool_mint: key(MINT),
        season_state_bump: 254,
        vault_authority_bump: 253,
    };
    let record = initialize_season(&mut ctx, 100, 200, 300, key(ENGINE));
    assert_eq!(
        record,
        Ok(SeasonInitialized {
            owner: key(OWNER),
            game_engine: key(ENGINE),
            deposit_start: 100,
            deposit_end: 200,
            season_end: 300,
            stake_pool_program_id: key(POOL_PROGRAM),
            stake_pool: key(POOL),
            pool_mint: key(MINT),
            vault_pool_token_ata: key(ESCROW),
        })
    );
    assert_eq!(
        ctx.season_state,
        SeasonState {
            owner: key(OWNER),
            game_engine: key(ENGINE),
            pending_game_engine: Pubkey::default(),
            deposit_start: 100,
            deposit_end: 200,
            season_end: 300,
            total_principal_lamports: 0,
            total_points: 0,
            finalized: false,
            final_total_assets_lamports: 0,
            final_total_yield_lamports: 0,
            final_vault_pool_tokens: 0,
            carry_over_yield_lamports: 0,
            stake_pool_program_id: key(POOL_PROGRAM),
            stake_pool: key(POOL),
            pool_mint: key(MINT),
            vault_pool_token_ata: key(ESCROW),
            bump: 254,
            vault_authority_bump: 253,
        }
    );
}

#[test]
fn initialize_refuses_a_schedule_out_of_order() {
    let schedules: [(i64, i64, i64); 6] = [
        (100, 100, 300),
        (100, 200, 200),
        (200, 100, 300),
        (100, 300, 200),
        (300, 200, 100),
        (i64::MAX, i64::MIN, 0),
    ];
    for (start, end, season_end) in schedules {
        let mut ctx = InitializeSeason {
            owner: key(OWNER),
            season_state: blank_ledger(),
            vault_pool_token_ata: key(ESCROW),
            stake_pool: key(POOL),
            stake_pool_program: key(POOL_PROGRAM),
            pool_mint: key(MINT),
            season_state_bump: 254,
            vault_authority_bump: 253,
        };
        assert_eq!(
            initialize_season(&mut ctx, start, end, season_end, key(ENGINE)),
            Err(ErrorCode::InvalidTimeWindow)
        );
        assert_eq!(ctx.season_state, blank_ledger());
    }
}

#[test]
fn initialize_refuses_the_null_game_engine() {
    let mut ctx = InitializeSeason {
        owner: key(OWNER),
        season_state: blank_ledger(),
        vault_pool_token_ata: key(ESCROW),
        stake_pool: key(POOL),
        stake_pool_program: key(POOL_PROGRAM),
        pool_mint: key(MINT),
        season_state_bump: 254,
        vault_authority_bump: 253,
    };
    assert_eq!(
        initialize_season(&mut ctx, 100, 200, 300, Pubkey::default()),
        Err(ErrorCode::InvalidAuthority)
    );
    assert_eq!(ctx.season_state, blank_ledger());
    // The schedule is tested first.
    assert_eq!(
        initialize_season(&mut ctx, 100, 100, 300, Pubkey::default()),
        Err(ErrorCode::InvalidTimeWindow)
    );
}

#[test]
fn every_opened_season_has_an_ordered_schedule() {
    let times: [i64; 5] = [i64::MIN, -1, 0, 7, i64::MAX];
    for a in times {
        for b in times {
            for c in times {
                let mut ctx = InitializeSeason {
                    owner: key(OWNER),
                    season_state: blank_ledger(),
                    vault_pool_token_ata: key(ESCROW),
                    stake_pool: key(POOL),
                    stake_pool_program: key(POOL_PROGRAM),
                    pool_mint: key(MINT),
                    season_state_bump: 1,
                    vault_authority_bump: 2,
                };
                let opened = initialize_season(&mut ctx, a, b, c, key(ENGINE)).is_ok();
                assert_eq!(opened, a < b && b < c);
                if opened {
                    let s = ctx.season_state;
                    assert!(s.deposit_start < s.deposit_end && s.deposit_end < s.season_end);
                }
            }
        }
    }
}

#[test]
fn phase_follows_clock_and_flag() {
    let mut ledger = open_season();
    assert_eq!(ledger.phase(i64::MIN), Phase::Created);
    assert_eq!(ledger.phase(99), Phase::Created);
    assert_eq!(ledger.phase(100), Phase::DepositOpen);
    assert_eq!(ledger.phase(199), Phase::DepositOpen);
    assert_eq!(ledger.phase(200), Phase::PointsOpen);
    assert_eq!(ledger.phase(299), Phase::PointsOpen);
    assert_eq!(ledger.phase(300), Phase::SeasonEnded);
    assert_eq!(ledger.phase(i64::MAX), Phase::SeasonEnded);
    ledger.finalized = true;
    assert_eq!(ledger.phase(0), Phase::Finalized);
    assert_eq!(ledger.phase(300), Phase::Finalized);
}

#[test]
fn scenario_single_depositor_without_points() {
    let mut ledger = open_season();
    let mut alice = UserPosition::default();
    let mut escrow: u64 = 0;

    let deposited = deposit(&mut ledger, &mut alice, &mut escrow, ALICE, 1_000_000, 150).unwrap();
    assert_eq!(
        deposited,
        Deposited {
            user: key(ALICE),
            amount_lamports: 1_000_000,
            new_user_principal_lamports: 1_000_000,
            new_total_principal_lamports: 1_000_000,
            minted_pool_token_delta: 1_000_000,
        }
    );
    assert_eq!(escrow, 1_000_000);

    let rate = ExchangeRate { total_lamports: 1_050_000, pool_token_supply: escrow };
    let closed = close(&mut ledger, escrow, rate, 300).unwrap();
    assert_eq!(
        closed,
        SeasonFinalized {
            final_total_assets_lamports: 1_050_000,
            total_principal_lamports: 1_000_000,
            final_total_yield_lamports: 50_000,
            total_points: 0,
            carry_over_yield_lamports: 50_000,
            final_vault_pool_tokens: 1_000_000,
        }
    );
    assert!(ledger.finalized);
    assert_eq!(ledger.carry_over_yield_lamports, 50_000);

    let paid = pay(&ledger, &mut alice, &mut escrow, ALICE).unwrap();
    assert_eq!(
        paid,
        Withdrawn {
            user: key(ALICE),
            principal_lamports: 1_000_000,
            yield_share_lamports: 0,
            payout_lamports: 1_000_000,
            payout_pool_tokens: 952_381,
        }
    );
    assert!(alice.withdrawn);
}

#[test]
fn scenario_two_depositors_share_by_points() {
    let mut ledger = open_season();
    let mut alice = UserPosition::default();
    let mut bob = UserPosition::default();
    let mut escrow: u64 = 0;

    deposit(&mut ledger, &mut alice, &mut escrow, ALICE, 1_000_000, 100).unwrap();
    deposit(&mut ledger, &mut bob, &mut escrow, BOB, 1_000_000, 199).unwrap();
    assert_eq!(ledger.total_principal_lamports, 2_000_000);

    let first = award(&mut ledger, &mut alice, ENGINE, 100, 150).unwrap();
    assert_eq!(
        first,
        Some(PointsAwarded {
            user: key(ALICE),
            delta: 100,
            new_user_points: 100,
            new_total_points: 100
        })
    );
    let second = award(&mut ledger, &mut bob, ENGINE, 300, 299).unwrap();
    assert_eq!(
        second,
        Some(PointsAwarded { user: key(BOB), delta: 300, new_user_points: 300, new_total_points: 400 })
    );
    assert_eq!(ledger.total_points, 400);

    let rate = ExchangeRate { total_lamports: 2_040_000, pool_token_supply: 2_000_000 };
    let closed = close(&mut ledger, escrow, rate, 301).unwrap();
    assert_eq!(closed.final_total_assets_lamports, 2_040_000);
    assert_eq!(closed.final_total_yield_lamports, 40_000);
    assert_eq!(closed.carry_over_yield_lamports, 0);

    let (_, paid_alice) = withdraw(&mut withdraw_accounts(ledger, alice, ALICE, escrow)).unwrap();
    let (_, paid_bob) = withdraw(&mut withdraw_accounts(ledger, bob, BOB, escrow)).unwrap();
    assert_eq!(paid_alice.yield_share_lamports, 10_000);
    assert_eq!(paid_bob.yield_share_lamports, 30_000);
    assert_eq!(paid_alice.payout_lamports, 1_010_000);
    assert_eq!(paid_bob.payout_lamports, 1_030_000);
    assert_eq!(
        paid_alice.yield_share_lamports + paid_bob.yield_share_lamports,
        closed.final_total_yield_lamports
    );
    // 1_010_000 * 2_000_000 / 2_040_000 = 990_196.07..., and
    // 1_030_000 * 2_000_000 / 2_040_000 = 1_009_803.92...
    assert_eq!(paid_alice.payout_pool_tokens, 990_197);
    assert_eq!(paid_bob.payout_pool_tokens, 1_009_804);

    // Both payouts rounded up come to one pool token more than the vault
    // holds: whoever comes second is refused, and not marked as paid.
    assert!(pay(&ledger, &mut alice, &mut escrow, ALICE).is_ok());
    assert_eq!(escrow, 1_009_803);
    assert_eq!(
        pay(&ledger, &mut bob, &mut escrow, BOB),
        Err(ErrorCode::InsufficientVaultPoolTokens)
    );
    assert!(!bob.withdrawn);
    escrow += 1;
    assert!(pay(&ledger, &mut bob, &mut escrow, BOB).is_ok());
    assert_eq!(escrow, 0);
}

#[test]
fn scenario_deposit_outside_the_window_fails() {
    let ledger = open_season();
    for now in [i64::MIN, 0, 99, 200, 201, 300, i64::MAX] {
        let mut ctx = deposit_accounts(ledger, UserPosition::default(), ALICE, 0);
        let before = ctx.clone();
        assert_eq!(
            deposit_sol(&mut ctx, 1_000_000, 1_000_000, now),
            Err(ErrorCode::DepositWindowClosed)
        );
        assert_eq!(ctx, before);
        assert_eq!(ctx.season_state.total_principal_lamports, 0);
        assert_eq!(ctx.user_position.principal_lamports, 0);
        assert_eq!(
            deposit_sol_instruction(&ctx, 1_000_000, vec![14, 0, 0], now),
            Err(ErrorCode::DepositWindowClosed)
        );
    }
    for now in [100, 150, 199] {
        let mut ctx = deposit_accounts(ledger, UserPosition::default(), ALICE, 0);
        assert!(deposit_sol(&mut ctx, 1_000_000, 1_000_000, now).is_ok());
    }
}

#[test]
fn scenario_points_from_a_stranger_fail() {
    let mut ledger = open_season();
    let mut alice = UserPosition::default();
    let mut escrow: u64 = 0;
    deposit(&mut ledger, &mut alice, &mut escrow, ALICE, 5, 150).unwrap();
    award(&mut ledger, &mut alice, ENGINE, 7, 150).unwrap();

    for signer in [OWNER, ALICE, 0, 99] {
        let mut ctx = AwardPoints {
            game_engine: key(signer),
            season_state: ledger,
            user_position: alice,
        };
        assert_eq!(award_points(&mut ctx, 10, 150), Err(ErrorCode::UnauthorizedGameEngine));
        assert_eq!(ctx.user_position.points, 7);
        assert_eq!(ctx.season_state.total_points, 7);
        assert_eq!(ctx.user_position, alice);
        assert_eq!(ctx.season_state, ledger);
    }
}

#[test]
fn scenario_second_withdrawal_fails() {
    let mut ledger = open_season();
    let mut alice = UserPosition::default();
    let mut escrow: u64 = 0;
    deposit(&mut ledger, &mut alice, &mut escrow, ALICE, 1_000_000, 150).unwrap();
    close(
        &mut ledger,
        escrow,
        ExchangeRate { total_lamports: 1_000_000, pool_token_supply: 1_000_000 },
        300,
    )
    .unwrap();

    assert!(pay(&ledger, &mut alice, &mut escrow, ALICE).is_ok());
    let after_first = alice;
    assert_eq!(pay(&ledger, &mut alice, &mut escrow, ALICE), Err(ErrorCode::AlreadyWithdrawn));
    assert_eq!(alice, after_first);
    // Not even with the vault refilled.
    escrow = 10_000_000;
    assert_eq!(pay(&ledger, &mut alice, &mut escrow, ALICE), Err(ErrorCode::AlreadyWithdrawn));
}

#[test]
fn season_closes_once() {
    let mut ledger = open_season();
    let rate = ExchangeRate { total_lamports: 10, pool_token_supply: 10 };
    assert!(close(&mut ledger, 0, rate, 300).is_ok());
    let closed = ledger;
    for now in [300, 301, i64::MAX] {
        assert_eq!(close(&mut ledger, 0, rate, now), Err(ErrorCode::SeasonAlreadyFinalized));
        assert_eq!(ledger, closed);
    }
    assert_eq!(close(&mut ledger, 0, rate, 299), Err(ErrorCode::SeasonNotEnded));
}

#[test]
fn totals_are_the_sums_over_the_positions() {
    let mut ledger = open_season();
    let mut positions = [UserPosition::default(); 3];
    let users = [ALICE, BOB, 23];
    let mut escrow: u64 = 0;
    let steps: [(usize, u64, u64, i64); 7] = [
        (0, 5, 1, 100),
        (1, 7, 0, 120),
        (0, 11, 4, 150),
        (2, 1, 9, 160),
        (1, 1_000_000, 3, 170),
        (2, 13, 0, 180),
        (0, 1, 1, 199),
    ];
    for (who, amount, delta, now) in steps {
        deposit(&mut ledger, &mut positions[who], &mut escrow, users[who], amount, now).unwrap();
        award(&mut ledger, &mut positions[who], ENGINE, delta, now).unwrap();
        let principal: u64 = positions.iter().map(|p| p.principal_lamports).sum();
        let points: u64 = positions.iter().map(|p| p.points).sum();
        assert_eq!(ledger.total_principal_lamports, principal);
        assert_eq!(ledger.total_points, points);
        assert_eq!(escrow, principal);
    }
    assert_eq!(ledger.total_principal_lamports, 1_000_038);
    assert_eq!(ledger.total_points, 18);
    // A refused deposit moves neither side.
    let before = (ledger, positions);
    assert!(deposit(&mut ledger, &mut positions[0], &mut escrow, ALICE, 5, 200).is_err());
    assert!(deposit(&mut ledger, &mut positions[0], &mut escrow, ALICE, 0, 150).is_err());
    assert_eq!((ledger, positions), before);
    for (i, user) in users.iter().enumerate() {
        assert_eq!(positions[i].user, key(*user));
        assert_eq!(positions[i].season, key(SEASON));
        assert_eq!(positions[i].bump, 250);
    }
}

#[test]
fn deposits_by_the_null_identity_lose_what_was_booked() {
    let mut ledger = open_season();
    let mut position = UserPosition::default();
    let mut escrow: u64 = 0;
    deposit(&mut ledger, &mut position, &mut escrow, 0, 5, 150).unwrap();
    deposit(&mut ledger, &mut position, &mut escrow, 0, 7, 150).unwrap();
    assert_eq!(ledger.total_principal_lamports, 12);
    assert_eq!(position.principal_lamports, 7);
}

#[test]
fn yield_without_points_is_carried_over_and_shared_with_nobody() {
    let mut ledger = open_season();
    let mut alice = UserPosition::default();
    let mut bob = UserPosition::default();
    let mut escrow: u64 = 0;
    deposit(&mut ledger, &mut alice, &mut escrow, ALICE, 300, 150).unwrap();
    deposit(&mut ledger, &mut bob, &mut escrow, BOB, 700, 150).unwrap();
    assert_eq!(award(&mut ledger, &mut alice, ENGINE, 0, 150), Ok(None));
    ledger.carry_over_yield_lamports = 11;

    let rate = ExchangeRate { total_lamports: 1_200, pool_token_supply: 1_000 };
    let closed = close(&mut ledger, escrow, rate, 300).unwrap();
    assert_eq!(closed.final_total_yield_lamports, 200);
    assert_eq!(closed.carry_over_yield_lamports, 211);
    assert_eq!(ledger.carry_over_yield_lamports, 211);

    let paid_alice = pay(&ledger, &mut alice, &mut escrow, ALICE).unwrap();
    let paid_bob = pay(&ledger, &mut bob, &mut escrow, BOB).unwrap();
    assert_eq!(paid_alice.yield_share_lamports, 0);
    assert_eq!(paid_bob.yield_share_lamports, 0);
    assert_eq!(paid_alice.payout_lamports, 300);
    assert_eq!(paid_bob.payout_lamports, 700);
    assert_eq!(paid_alice.payout_pool_tokens, 250);
    assert_eq!(paid_bob.payout_pool_tokens, 584);
}

#[test]
fn yield_with_points_is_not_carried_over() {
    let mut ledger = open_season();
    let mut alice = UserPosition::default();
    let mut escrow: u64 = 0;
    deposit(&mut ledger, &mut alice, &mut escrow, ALICE, 1_000, 150).unwrap();
    award(&mut ledger, &mut alice, ENGINE, 1, 250).unwrap();
    let rate = ExchangeRate { total_lamports: 1_200, pool_token_supply: 1_000 };
    let closed = close(&mut ledger, escrow, rate, 300).unwrap();
    assert_eq!(closed.final_total_yield_lamports, 200);
    assert_eq!(closed.carry_over_yield_lamports, 0);
    let paid = pay(&ledger, &mut alice, &mut escrow, ALICE).unwrap();
    assert_eq!(paid.yield_share_lamports, 200);
    assert_eq!(paid.payout_lamports, 1_200);
    assert_eq!(paid.payout_pool_tokens, 1_000);
    assert_eq!(escrow, 0);
}

#[test]
fn a_pool_that_lost_value_yields_nothing() {
    let mut ledger = open_season();
    let mut alice = UserPosition::default();
    let mut escrow: u64 = 0;
    deposit(&mut ledger, &mut alice, &mut escrow, ALICE, 1_000, 150).unwrap();
    let rate = ExchangeRate { total_lamports: 900, pool_token_supply: 1_000 };
    let closed = close(&mut ledger, escrow, rate, 300).unwrap();
    assert_eq!(closed.final_total_assets_lamports, 900);
    assert_eq!(closed.final_total_yield_lamports, 0);
    assert_eq!(closed.carry_over_yield_lamports, 0);
    // The principal is owed in full: more pool tokens than the vault holds.
    assert_eq!(
        pay(&ledger, &mut alice, &mut escrow, ALICE),
        Err(ErrorCode::InsufficientVaultPoolTokens)
    );
    assert!(!alice.withdrawn);
}

#[test]
fn deposit_instruction_passes_the_payload_on() {
    let ledger = open_season();
    let mut ctx = deposit_accounts(ledger, UserPosition::default(), ALICE, 0);
    ctx.remaining_accounts = vec![
        AccountInfo { key: key(POOL), is_signer: false, is_writable: true },
        AccountInfo { key: key(ALICE), is_signer: true, is_writable: true },
        AccountInfo { key: key(MINT), is_signer: false, is_writable: false },
    ];
    let payload = vec![14u8, 64, 66, 15, 0, 0, 0, 0, 0];
    let call = deposit_sol_instruction(&ctx, 1_000_000, payload.clone(), 150).unwrap();
    assert_eq!(call.program_id, key(POOL_PROGRAM));
    assert_eq!(call.data, payload);
    assert_eq!(
        call.accounts,
        vec![
            AccountMeta { pubkey: key(POOL), is_signer: false, is_writable: true },
            AccountMeta { pubkey: key(ALICE), is_signer: true, is_writable: true },
            AccountMeta { pubkey: key(MINT), is_signer: false, is_writable: false },
        ]
    );
}

#[test]
fn withdraw_orders_the_transfer_as_the_vault() {
    let mut ledger = open_season();
    let mut alice = UserPosition::default();
    let mut escrow: u64 = 0;
    deposit(&mut ledger, &mut alice, &mut escrow, ALICE, 1_000, 150).unwrap();
    close(
        &mut ledger,
        escrow,
        ExchangeRate { total_lamports: 1_000, pool_token_supply: 1_000 },
        300,
    )
    .unwrap();
    let mut ctx = withdraw_accounts(ledger, alice, ALICE, escrow);
    let (order, record) = withdraw(&mut ctx).unwrap();
    assert_eq!(order.from, key(ESCROW));
    assert_eq!(order.to, key(ALICE + 100));
    assert_eq!(order.amount, 1_000);
    assert_eq!(record.payout_pool_tokens, 1_000);
    assert_eq!(
        order.signer_seeds,
        vec![b"vault_authority".to_vec(), vec![SEASON; 32], vec![253u8]]
    );
    assert_eq!(&VAULT_AUTHORITY_SEED, b"vault_authority");
    assert!(ctx.user_position.withdrawn);
    assert_eq!(ctx.vault_pool_token_ata.amount, 1_000);
}

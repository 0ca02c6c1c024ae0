use gambling::address::check_vault;
use gambling::bet::{escrow_stake, resolve_bet};
use gambling::payout::{abs_diff, multiplier_for, MAX_STAKE};
use gambling::{
    initialize_pool, place_bet, quote, settle_bet, vault_address, Address, Bet, GamblingError,
    InitializePool, Outcome, PlaceBet, Pool, SettleBet, Vault,
};

fn addr(b: u8) -> Address {
    Address::new([b; 32])
}

fn program() -> Address {
    addr(7)
}

fn pool_key() -> Address {
    addr(2)
}

fn player() -> Address {
    addr(3)
}

fn vault_key() -> Address {
    vault_address(&pool_key(), &program()).unwrap().0
}

fn pool(min_bet: u64, max_bet: u64, house_edge: u16) -> Pool {
    let ctx = InitializePool { authority: addr(1), bump: 255 };
    initialize_pool(&ctx, min_bet, max_bet, house_edge).unwrap()
}

fn place_ctx(pool: Pool, funds: u64, vault_balance: u64) -> PlaceBet {
    PlaceBet {
        pool,
        pool_key: pool_key(),
        player: player(),
        player_funds: funds,
        vault: Vault::new(vault_balance),
        vault_key: vault_key(),
        program_id: program(),
    }
}

fn settle_ctx(bet: Bet, pool: Pool, vault_balance: u64) -> SettleBet {
    SettleBet {
        bet,
        pool,
        pool_key: pool_key(),
        player: player(),
        player_funds: 0,
        vault: Vault::new(vault_balance),
        vault_key: vault_key(),
        program_id: program(),
    }
}

fn open_bet(amount: u64, predicted: u64) -> Bet {
    let mut ctx = place_ctx(pool(1, 1_000_000, 0), 1_000_000, 0);
    place_bet(&mut ctx, amount, predicted, 1_700_000_000, 254).unwrap()
}

/// Settles a bet of `amount` predicted at 0 against `actual`, from a vault large enough.
fn settle_at(amount: u64, actual: u64, house_edge: u16) -> (Outcome, SettleBet) {
    let bet = open_bet(amount, 0);
    let mut ctx = settle_ctx(bet, pool(1, 1_000_000, house_edge), 1_000_000_000);
    let outcome = settle_bet(&mut ctx, actual).unwrap();
    (outcome, ctx)
}

#[test]
fn initialize_pool_sets_config_and_zero_totals() {
    let ctx = InitializePool { authority: addr(9), bump: 200 };
    let p = initialize_pool(&ctx, 10, 500, 250).unwrap();
    assert_eq!(p.authority, addr(9));
    assert_eq!(p.min_bet, 10);
    assert_eq!(p.max_bet, 500);
    assert_eq!(p.house_edge, 250);
    assert_eq!(p.total_wagered, 0);
    assert_eq!(p.total_paid_out, 0);
    assert_eq!(p.bump, 200);
    assert!(p.is_valid());
}

#[test]
fn initialize_pool_rejects_bad_config() {
    let ctx = InitializePool { authority: addr(9), bump: 200 };
    assert_eq!(initialize_pool(&ctx, 0, 500, 0), Err(GamblingError::InvalidPoolConfig));
    assert_eq!(initialize_pool(&ctx, 501, 500, 0), Err(GamblingError::InvalidPoolConfig));
    assert_eq!(initialize_pool(&ctx, 1, 500, 10001), Err(GamblingError::InvalidPoolConfig));
    assert_eq!(initialize_pool(&ctx, 1, MAX_STAKE + 1, 0), Err(GamblingError::InvalidPoolConfig));
    assert!(initialize_pool(&ctx, 1, MAX_STAKE, 10000).is_ok());
    assert!(initialize_pool(&ctx, 500, 500, 0).is_ok());
}

#[test]
fn place_bet_within_bounds_moves_exact_stake() {
    for s in [100u64, 101, 550, 999, 1000] {
        let mut ctx = place_ctx(pool(100, 1000, 0), 5000, 77);
        let bet = place_bet(&mut ctx, s, 4321, 1_700_000_000, 254).unwrap();
        assert_eq!(ctx.vault.balance, 77 + s);
        assert_eq!(ctx.player_funds, 5000 - s);
        assert_eq!(ctx.pool.total_wagered, s);
        assert_eq!(ctx.pool.total_paid_out, 0);
        assert_eq!(bet.player, player());
        assert_eq!(bet.pool, pool_key());
        assert_eq!(bet.amount, s);
        assert_eq!(bet.predicted_time_alive, 4321);
        assert_eq!(bet.actual_time_alive, 0);
        assert!(!bet.settled);
        assert!(!bet.won);
        assert_eq!(bet.payout, 0);
        assert_eq!(bet.timestamp, 1_700_000_000);
        assert_eq!(bet.bump, 254);
    }
}

#[test]
fn place_bet_outside_bounds_moves_nothing() {
    for s in [0u64, 99, 1001, u64::MAX] {
        let mut ctx = place_ctx(pool(100, 1000, 0), 5000, 77);
        let before = ctx;
        assert_eq!(place_bet(&mut ctx, s, 1, 2, 3), Err(GamblingError::InvalidBetAmount));
        assert_eq!(ctx, before);
    }
}

#[test]
fn place_bet_needs_player_funds() {
    let mut ctx = place_ctx(pool(100, 1000, 0), 499, 0);
    let before = ctx;
    assert_eq!(place_bet(&mut ctx, 500, 1, 2, 3), Err(GamblingError::InsufficientFunds));
    assert_eq!(ctx, before);
    assert!(place_bet(&mut ctx, 499, 1, 2, 3).is_ok());
    assert_eq!(ctx.player_funds, 0);
}

#[test]
fn place_bet_refuses_vault_overflow() {
    let mut ctx = place_ctx(pool(100, 1000, 0), 5000, u64::MAX - 100);
    let before = ctx;
    assert_eq!(place_bet(&mut ctx, 101, 1, 2, 3), Err(GamblingError::ArithmeticOverflow));
    assert_eq!(ctx, before);
    assert!(place_bet(&mut ctx, 100, 1, 2, 3).is_ok());
    assert_eq!(ctx.vault.balance, u64::MAX);
}

#[test]
fn place_bet_refuses_foreign_vault() {
    let mut ctx = place_ctx(pool(100, 1000, 0), 5000, 0);
    ctx.vault_key = addr(4);
    let before = ctx;
    assert_eq!(place_bet(&mut ctx, 500, 1, 2, 3), Err(GamblingError::InvalidVault));
    assert_eq!(ctx, before);
}

#[test]
fn vault_address_is_derived_from_pool() {
    let (v, _) = vault_address(&pool_key(), &program()).unwrap();
    assert_ne!(v, pool_key());
    assert_ne!(v, program());
    assert_eq!(vault_address(&pool_key(), &program()).unwrap().0, v);
    let (other, _) = vault_address(&addr(5), &program()).unwrap();
    assert_ne!(other, v);
    assert!(check_vault(&v, &pool_key(), &program()));
    assert!(!check_vault(&pool_key(), &pool_key(), &program()));
    assert!(!check_vault(&v, &addr(5), &program()));
}

#[test]
fn address_same_compares_all_bytes() {
    let a = addr(1);
    let mut bytes = [1u8; 32];
    bytes[31] = 2;
    let b = Address::new(bytes);
    assert!(a.same(&addr(1)));
    assert!(!a.same(&b));
}

#[test]
fn multiplier_boundary_table() {
    let cases: [(u64, u64, bool); 9] = [
        (0, 10000, true),
        (100, 10000, true),
        (101, 5000, true),
        (500, 5000, true),
        (501, 2000, true),
        (1000, 2000, true),
        (1001, 1000, true),
        (2000, 1000, true),
        (2001, 0, false),
    ];
    for (diff, payout, won) in cases {
        let (outcome, ctx) = settle_at(1000, diff, 0);
        assert_eq!(outcome, Outcome { won, payout });
        assert_eq!(ctx.bet.payout, payout);
        assert_eq!(ctx.bet.won, won);
        assert!(ctx.bet.settled);
        assert_eq!(ctx.bet.actual_time_alive, diff);
        assert_eq!(ctx.player_funds, payout);
        assert_eq!(ctx.vault.balance, 1_000_000_000 - payout);
        assert_eq!(ctx.pool.total_paid_out, payout);
    }
}

#[test]
fn multiplier_band_values() {
    assert_eq!(multiplier_for(0), 10000);
    assert_eq!(multiplier_for(100), 10000);
    assert_eq!(multiplier_for(101), 5000);
    assert_eq!(multiplier_for(500), 5000);
    assert_eq!(multiplier_for(501), 2000);
    assert_eq!(multiplier_for(1000), 2000);
    assert_eq!(multiplier_for(1001), 1000);
    assert_eq!(multiplier_for(2000), 1000);
    assert_eq!(multiplier_for(2001), 0);
    assert_eq!(multiplier_for(u64::MAX), 0);
}

#[test]
fn prediction_error_is_symmetric_and_wide() {
    assert_eq!(abs_diff(5000, 4900), 100);
    assert_eq!(abs_diff(4900, 5000), 100);
    assert_eq!(abs_diff(0, u64::MAX), u64::MAX);
    assert_eq!(abs_diff(u64::MAX, 0), u64::MAX);
    let (outcome, _) = settle_at(1000, u64::MAX, 0);
    assert_eq!(outcome, Outcome { won: false, payout: 0 });
}

#[test]
fn fee_applied_to_gross_payout() {
    let q = quote(1000, 0, 0, 500).unwrap();
    assert_eq!(q.multiplier, 10000);
    assert_eq!(q.gross, 10000);
    assert_eq!(q.fee, 500);
    assert_eq!(q.payout, 9500);
    let (outcome, ctx) = settle_at(1000, 0, 500);
    assert_eq!(outcome, Outcome { won: true, payout: 9500 });
    assert_eq!(ctx.bet.payout, 9500);
}

#[test]
fn breakeven_refunds_stake_minus_fee() {
    let q = quote(1000, 3000, 1500, 500).unwrap();
    assert_eq!(q.multiplier, 1000);
    assert_eq!(q.gross, 1000);
    assert_eq!(q.fee, 50);
    assert_eq!(q.payout, 950);
    let (outcome, _) = settle_at(1000, 1500, 500);
    assert_eq!(outcome, Outcome { won: true, payout: 950 });
}

#[test]
fn full_fee_leaves_nothing() {
    let q = quote(1000, 0, 0, 10000).unwrap();
    assert_eq!(q.gross, 10000);
    assert_eq!(q.fee, 10000);
    assert_eq!(q.payout, 0);
}

#[test]
fn fee_rounds_down() {
    let q = quote(333, 0, 600, 333).unwrap();
    assert_eq!(q.gross, 666);
    assert_eq!(q.fee, 22);
    assert_eq!(q.payout, 644);
}

#[test]
fn gross_payout_overflow_is_refused() {
    assert_eq!(quote(u64::MAX, 0, 0, 0), Err(GamblingError::ArithmeticOverflow));
    let q = quote(MAX_STAKE, 0, 0, 0).unwrap();
    assert_eq!(q.gross, MAX_STAKE * 10);
    let q = quote(u64::MAX, 0, 5000, 0).unwrap();
    assert_eq!(q.payout, 0);
}

#[test]
fn second_settlement_is_refused() {
    let (first, mut ctx) = settle_at(1000, 300, 0);
    assert_eq!(first, Outcome { won: true, payout: 5000 });
    let after_first = ctx;
    assert_eq!(settle_bet(&mut ctx, 0), Err(GamblingError::BetAlreadySettled));
    assert_eq!(ctx, after_first);
    assert_eq!(ctx.bet.payout, 5000);
    assert!(ctx.bet.won);
    assert_eq!(ctx.bet.actual_time_alive, 300);
}

#[test]
fn settlement_by_other_identity_is_refused() {
    let bet = open_bet(1000, 0);
    let mut ctx = settle_ctx(bet, pool(1, 1_000_000, 0), 1_000_000);
    ctx.player = addr(8);
    let before = ctx;
    assert_eq!(settle_bet(&mut ctx, 0), Err(GamblingError::UnauthorizedPlayer));
    assert_eq!(ctx, before);
    assert!(!ctx.bet.settled);
}

#[test]
fn settlement_against_other_pool_is_refused() {
    let mut bet = open_bet(1000, 0);
    bet.pool = addr(6);
    let mut ctx = settle_ctx(bet, pool(1, 1_000_000, 0), 1_000_000);
    let before = ctx;
    assert_eq!(settle_bet(&mut ctx, 0), Err(GamblingError::PoolMismatch));
    assert_eq!(ctx, before);
}

#[test]
fn settlement_with_foreign_vault_is_refused() {
    let bet = open_bet(1000, 0);
    let mut ctx = settle_ctx(bet, pool(1, 1_000_000, 0), 1_000_000);
    ctx.vault_key = addr(4);
    let before = ctx;
    assert_eq!(settle_bet(&mut ctx, 0), Err(GamblingError::InvalidVault));
    assert_eq!(ctx, before);
}

#[test]
fn settlement_beyond_vault_balance_is_refused() {
    let bet = open_bet(1000, 0);
    let mut ctx = settle_ctx(bet, pool(1, 1_000_000, 0), 9999);
    let before = ctx;
    assert_eq!(settle_bet(&mut ctx, 0), Err(GamblingError::InsufficientVaultBalance));
    assert_eq!(ctx, before);
    assert!(!ctx.bet.settled);
    ctx.vault.balance = 10000;
    assert_eq!(settle_bet(&mut ctx, 0), Ok(Outcome { won: true, payout: 10000 }));
    assert_eq!(ctx.vault.balance, 0);
}

#[test]
fn losing_settlement_needs_no_vault_funds() {
    let bet = open_bet(1000, 0);
    let mut ctx = settle_ctx(bet, pool(1, 1_000_000, 0), 0);
    assert_eq!(settle_bet(&mut ctx, 5000), Ok(Outcome { won: false, payout: 0 }));
    assert!(ctx.bet.settled);
    assert_eq!(ctx.vault.balance, 0);
}

#[test]
fn settlement_refuses_player_balance_overflow() {
    let bet = open_bet(1000, 0);
    let mut ctx = settle_ctx(bet, pool(1, 1_000_000, 0), 1_000_000);
    ctx.player_funds = u64::MAX - 9999;
    let before = ctx;
    assert_eq!(settle_bet(&mut ctx, 0), Err(GamblingError::ArithmeticOverflow));
    assert_eq!(ctx, before);
}

#[test]
fn escrow_and_resolve_without_vault_derivation() {
    let mut pctx = place_ctx(pool(1, 1000, 0), 1000, 0);
    pctx.vault_key = addr(4);
    let bet = escrow_stake(&mut pctx, 1000, 100, 5, 6).unwrap();
    assert_eq!(pctx.vault.balance, 1000);
    let mut sctx = settle_ctx(bet, pctx.pool, 20000);
    sctx.vault_key = addr(4);
    assert_eq!(resolve_bet(&mut sctx, 1100), Ok(Outcome { won: true, payout: 2000 }));
    assert_eq!(resolve_bet(&mut sctx, 1100), Err(GamblingError::BetAlreadySettled));
}

#[test]
fn vault_outflow_never_exceeds_inflow() {
    let opening = 0u64;
    let mut p = pool(100, 1000, 200);
    let mut vault = Vault::new(opening);
    let mut funds = 100_000u64;
    let mut bets = Vec::new();
    for (i, (amount, predicted)) in [(1000u64, 2100u64), (500, 3200), (100, 1000), (800, 5000)]
        .iter()
        .enumerate()
    {
        let mut ctx = place_ctx(p, funds, vault.balance);
        ctx.player = addr(20 + i as u8);
        let bet = place_bet(&mut ctx, *amount, *predicted, 0, 0).unwrap();
        p = ctx.pool;
        vault = ctx.vault;
        funds = ctx.player_funds;
        bets.push(bet);
    }
    assert_eq!(p.total_wagered, 2400);
    assert_eq!(vault.balance, 2400);
    let mut paid = 0u64;
    for (i, bet) in bets.into_iter().enumerate() {
        let mut ctx = settle_ctx(bet, p, vault.balance);
        ctx.player = addr(20 + i as u8);
        // The first bet would earn 4900 from a vault of 2400: refused, nothing moves.
        match settle_bet(&mut ctx, 2600) {
            Ok(o) => paid += o.payout,
            Err(e) => assert_eq!(e, GamblingError::InsufficientVaultBalance),
        }
        p = ctx.pool;
        vault = ctx.vault;
        assert_eq!(vault.balance + p.total_paid_out, opening + p.total_wagered);
        assert!(p.total_paid_out <= p.total_wagered + opening);
    }
    assert_eq!(p.total_paid_out, paid);
    assert_eq!(paid, 980 + 98);
    assert_eq!(vault.balance, 2400 - 1078);
}

#[test]
fn error_messages() {
    assert_eq!(GamblingError::InvalidBetAmount.message(), "Invalid bet amount");
    assert_eq!(GamblingError::BetAlreadySettled.message(), "Bet already settled");
    assert_eq!(GamblingError::UnauthorizedPlayer.message(), "Unauthorized player");
}

#[test]
fn pool_validity_check() {
    let mut p = pool(1, 10, 0);
    assert!(p.is_valid());
    p.house_edge = 10001;
    assert!(!p.is_valid());
    p.house_edge = 0;
    p.min_bet = 11;
    assert!(!p.is_valid());
}

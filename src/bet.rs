//! Bets: escrowing a stake with a prediction, and the one-shot settlement
//! that pays the player out of the pool's vault.
use vstd::prelude::*;

use crate::address::{check_vault, is_vault_of, Address};
use crate::error::GamblingError;
use crate::payout::{quote, quote_spec, Payout};
use crate::pool::{Pool, Vault};

verus! {

/// One player's stake and prediction, tracked to its settlement.
#[derive(Clone, Copy, Debug, PartialEq, Eq)]
pub struct Bet {
    /// The only identity that may settle the bet.
    pub player: Address,
    /// The pool the stake was escrowed into.
    pub pool: Address,
    /// The escrowed stake.
    pub amount: u64,
    /// The player's prediction.
    pub predicted_time_alive: u64,
    /// The observed outcome; zero until settlement.
    pub actual_time_alive: u64,
    /// Set once, by settlement.
    pub settled: bool,
    /// Whether the prediction earned a payout.
    pub won: bool,
    /// What the player was paid; zero unless `won`.
    pub payout: u64,
    /// Creation time, for audit only.
    pub timestamp: i64,
    /// Derivation salt of the bet's record address.
    pub bump: u8,
}

impl Bet {
    /// The record's invariant: an open bet has no outcome yet, and a bet that
    /// was not won paid nothing.
    pub open spec fn wf(&self) -> bool {
        &&& !self.settled ==> !self.won && self.payout == 0 && self.actual_time_alive == 0
        &&& !self.won ==> self.payout == 0
    }
}

/// What a settlement decided.
#[derive(Clone, Copy, Debug, PartialEq, Eq, Structural)]
pub struct Outcome {
    pub won: bool,
    pub payout: u64,
}

/// The accounts that take part in placing a bet.
#[derive(Clone, Copy, Debug, PartialEq, Eq)]
pub struct PlaceBet {
    pub pool: Pool,
    /// Address of the pool record.
    pub pool_key: Address,
    /// The identity placing the bet.
    pub player: Address,
    /// The player's spendable balance.
    pub player_funds: u64,
    pub vault: Vault,
    /// Address of the vault account supplied.
    pub vault_key: Address,
    /// The program under which the vault address is derived.
    pub program_id: Address,
}

/// The accounts that take part in settling a bet.
#[derive(Clone, Copy, Debug, PartialEq, Eq)]
pub struct SettleBet {
    pub bet: Bet,
    pub pool: Pool,
    /// Address of the pool record.
    pub pool_key: Address,
    /// The identity asking for settlement.
    pub player: Address,
    /// The player's balance, which receives the payout.
    pub player_funds: u64,
    pub vault: Vault,
    /// Address of the vault account supplied.
    pub vault_key: Address,
    /// The program under which the vault address is derived.
    pub program_id: Address,
}

/// Why placing a stake of `amount` is refused, if it is.
pub open spec fn place_bet_error(ctx: PlaceBet, amount: u64) -> Option<GamblingError> {
    if !ctx.pool.admits(amount) {
        Some(GamblingError::InvalidBetAmount)
    } else if ctx.player_funds < amount {
        Some(GamblingError::InsufficientFunds)
    } else if ctx.vault.balance + amount > u64::MAX || ctx.pool.total_wagered + amount > u64::MAX {
        Some(GamblingError::ArithmeticOverflow)
    } else {
        None
    }
}

/// The record of a freshly placed, open bet.
pub open spec fn open_bet(
    ctx: PlaceBet,
    amount: u64,
    predicted_time_alive: u64,
    timestamp: i64,
    bump: u8,
) -> Bet {
    Bet {
        player: ctx.player,
        pool: ctx.pool_key,
        amount,
        predicted_time_alive,
        actual_time_alive: 0,
        settled: false,
        won: false,
        payout: 0,
        timestamp,
        bump,
    }
}

/// The accounts after a stake of `amount` moved from the player into the vault.
pub open spec fn after_stake(ctx: PlaceBet, amount: u64) -> PlaceBet {
    PlaceBet {
        pool: Pool { total_wagered: (ctx.pool.total_wagered + amount) as u64, ..ctx.pool },
        player_funds: (ctx.player_funds - amount) as u64,
        vault: Vault { balance: (ctx.vault.balance + amount) as u64 },
        ..ctx
    }
}

/// What settling the bet of `ctx` against `actual` earns, or why it is refused.
pub open spec fn settle_bet_spec(ctx: SettleBet, actual: u64) -> Result<Payout, GamblingError> {
    if ctx.bet.settled {
        Err(GamblingError::BetAlreadySettled)
    } else if ctx.bet.player@ != ctx.player@ {
        Err(GamblingError::UnauthorizedPlayer)
    } else if ctx.bet.pool@ != ctx.pool_key@ {
        Err(GamblingError::PoolMismatch)
    } else {
        match quote_spec(
            ctx.bet.amount,
            ctx.bet.predicted_time_alive,
            actual,
            ctx.pool.house_edge,
        ) {
            Err(e) => Err(e),
            Ok(q) => {
                if q.payout > ctx.vault.balance {
                    Err(GamblingError::InsufficientVaultBalance)
                } else if ctx.player_funds + q.payout > u64::MAX || ctx.pool.total_paid_out
                    + q.payout > u64::MAX {
                    Err(GamblingError::ArithmeticOverflow)
                } else {
                    Ok(q)
                }
            },
        }
    }
}

/// The bet record once settled against `actual` with payout breakdown `q`.
pub open spec fn settled_record(bet: Bet, actual: u64, q: Payout) -> Bet {
    Bet { actual_time_alive: actual, settled: true, won: q.multiplier > 0, payout: q.payout, ..bet }
}

/// The accounts after settlement against `actual` paid out `q`.
pub open spec fn after_settlement(ctx: SettleBet, actual: u64, q: Payout) -> SettleBet {
    SettleBet {
        bet: settled_record(ctx.bet, actual, q),
        pool: Pool { total_paid_out: (ctx.pool.total_paid_out + q.payout) as u64, ..ctx.pool },
        player_funds: (ctx.player_funds + q.payout) as u64,
        vault: Vault { balance: (ctx.vault.balance - q.payout) as u64 },
        ..ctx
    }
}

/// Escrows `bet_amount` from the player into the pool's vault and returns the
/// new, open bet. The stake must lie within the pool's bounds and be covered
/// by the player's funds; on any error nothing changes. The vault is taken to
/// be the pool's own.
pub fn escrow_stake(
    ctx: &mut PlaceBet,
    bet_amount: u64,
    predicted_time_alive: u64,
    timestamp: i64,
    bump: u8,
) -> (r: Result<Bet, GamblingError>)
    ensures
        r is Ok <==> place_bet_error(*old(ctx), bet_amount) is None,
        r matches Err(e) ==> place_bet_error(*old(ctx), bet_amount) == Some(e) && *final(ctx)
            == *old(ctx),
        r matches Ok(b) ==> b == open_bet(*old(ctx), bet_amount, predicted_time_alive, timestamp, bump)
            && *final(ctx) == after_stake(*old(ctx), bet_amount),
{
    if bet_amount < ctx.pool.min_bet || bet_amount > ctx.pool.max_bet {
        return Err(GamblingError::InvalidBetAmount);
    }
    if ctx.player_funds < bet_amount {
        return Err(GamblingError::InsufficientFunds);
    }
    if ctx.vault.balance > u64::MAX - bet_amount || ctx.pool.total_wagered > u64::MAX - bet_amount {
        return Err(GamblingError::ArithmeticOverflow);
    }
    let bet = Bet {
        player: ctx.player,
        pool: ctx.pool_key,
        amount: bet_amount,
        predicted_time_alive,
        actual_time_alive: 0,
        settled: false,
        won: false,
        payout: 0,
        timestamp,
        bump,
    };
    ctx.player_funds = ctx.player_funds - bet_amount;
    ctx.vault.balance = ctx.vault.balance + bet_amount;
    ctx.pool.total_wagered = ctx.pool.total_wagered + bet_amount;
    Ok(bet)
}

/// Settles the bet of `ctx` against the observed `actual_time_alive`: computes
/// the payout and moves it from the vault to the player, all or nothing. Fails
/// on a settled bet, a caller other than the bet's player, a pool other than
/// the bet's, a vault that cannot cover the payout, or a balance that would
/// overflow; on any error nothing changes. The vault is taken to be the pool's
/// own.
pub fn resolve_bet(ctx: &mut SettleBet, actual_time_alive: u64) -> (r: Result<
    Outcome,
    GamblingError,
>)
    requires
        old(ctx).pool.wf(),
    ensures
        r is Ok <==> settle_bet_spec(*old(ctx), actual_time_alive) is Ok,
        r matches Err(e) ==> settle_bet_spec(*old(ctx), actual_time_alive) == Err::<
            Payout,
            GamblingError,
        >(e) && *final(ctx) == *old(ctx),
        r matches Ok(o) ==> settle_bet_spec(*old(ctx), actual_time_alive) matches Ok(q) && o == (
        Outcome { won: q.multiplier > 0, payout: q.payout }) && *final(ctx) == after_settlement(
            *old(ctx),
            actual_time_alive,
            q,
        ),
{
    if ctx.bet.settled {
        return Err(GamblingError::BetAlreadySettled);
    }
    if !ctx.bet.player.same(&ctx.player) {
        return Err(GamblingError::UnauthorizedPlayer);
    }
    if !ctx.bet.pool.same(&ctx.pool_key) {
        return Err(GamblingError::PoolMismatch);
    }
    let q = match quote(
        ctx.bet.amount,
        ctx.bet.predicted_time_alive,
        actual_time_alive,
        ctx.pool.house_edge,
    ) {
        Ok(q) => q,
        Err(e) => {
            return Err(e);
        },
    };
    if q.payout > ctx.vault.balance {
        return Err(GamblingError::InsufficientVaultBalance);
    }
    if ctx.player_funds > u64::MAX - q.payout || ctx.pool.total_paid_out > u64::MAX - q.payout {
        return Err(GamblingError::ArithmeticOverflow);
    }
    ctx.bet.actual_time_alive = actual_time_alive;
    ctx.bet.settled = true;
    ctx.bet.won = q.multiplier > 0;
    ctx.bet.payout = q.payout;
    ctx.vault.balance = ctx.vault.balance - q.payout;
    ctx.player_funds = ctx.player_funds + q.payout;
    ctx.pool.total_paid_out = ctx.pool.total_paid_out + q.payout;
    Ok(Outcome { won: q.multiplier > 0, payout: q.payout })
}

/// Places a bet: checks that the vault supplied is the one derived from the
/// pool's address, then escrows the stake as [`escrow_stake`] does.
pub fn place_bet(
    ctx: &mut PlaceBet,
    bet_amount: u64,
    predicted_time_alive: u64,
    timestamp: i64,
    bump: u8,
) -> (r: Result<Bet, GamblingError>)
    ensures
        !is_vault_of(old(ctx).vault_key, old(ctx).pool_key, old(ctx).program_id) ==> r == Err::<
            Bet,
            GamblingError,
        >(GamblingError::InvalidVault),
        is_vault_of(old(ctx).vault_key, old(ctx).pool_key, old(ctx).program_id) ==> {
            &&& r is Ok <==> place_bet_error(*old(ctx), bet_amount) is None
            &&& r matches Err(e) ==> place_bet_error(*old(ctx), bet_amount) == Some(e)
            &&& r matches Ok(b) ==> b == open_bet(
                *old(ctx),
                bet_amount,
                predicted_time_alive,
                timestamp,
                bump,
            ) && *final(ctx) == after_stake(*old(ctx), bet_amount)
        },
        r is Err ==> *final(ctx) == *old(ctx),
{
    if !check_vault(&ctx.vault_key, &ctx.pool_key, &ctx.program_id) {
        return Err(GamblingError::InvalidVault);
    }
    escrow_stake(ctx, bet_amount, predicted_time_alive, timestamp, bump)
}

/// Settles a bet: checks that the vault supplied is the one derived from the
/// pool's address, then settles as [`resolve_bet`] does.
pub fn settle_bet(ctx: &mut SettleBet, actual_time_alive: u64) -> (r: Result<
    Outcome,
    GamblingError,
>)
    requires
        old(ctx).pool.wf(),
    ensures
        !is_vault_of(old(ctx).vault_key, old(ctx).pool_key, old(ctx).program_id) ==> r == Err::<
            Outcome,
            GamblingError,
        >(GamblingError::InvalidVault),
        is_vault_of(old(ctx).vault_key, old(ctx).pool_key, old(ctx).program_id) ==> {
            &&& r is Ok <==> settle_bet_spec(*old(ctx), actual_time_alive) is Ok
            &&& r matches Err(e) ==> settle_bet_spec(*old(ctx), actual_time_alive) == Err::<
                Payout,
                GamblingError,
            >(e)
            &&& r matches Ok(o) ==> settle_bet_spec(*old(ctx), actual_time_alive) matches Ok(q)
                && o == (Outcome { won: q.multiplier > 0, payout: q.payout }) && *final(ctx)
                == after_settlement(*old(ctx), actual_time_alive, q)
        },
        r is Err ==> *final(ctx) == *old(ctx),
{
    if !check_vault(&ctx.vault_key, &ctx.pool_key, &ctx.program_id) {
        return Err(GamblingError::InvalidVault);
    }
    resolve_bet(ctx, actual_time_alive)
}

} // verus!

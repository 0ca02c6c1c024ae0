//! Properties of the pool operations that span inputs or several calls,
//! stated over the same spec functions as the operations' contracts.
use vstd::prelude::*;

use crate::bet::{
    after_settlement, after_stake, open_bet, place_bet_error, settle_bet_spec, PlaceBet, SettleBet,
};
use crate::error::GamblingError;
use crate::pool::{vault_conserved, Pool, Vault};

verus! {

/// A stake within the pool's inclusive bounds, covered by the player and
/// keeping the balances within `u64`, is accepted: the vault balance rises by
/// exactly the stake and the player's funds fall by as much. A stake outside
/// the bounds is refused with `InvalidBetAmount`.
pub proof fn lemma_stake_within_bounds(ctx: PlaceBet, s: u64)
    ensures
        ctx.pool.min_bet <= s <= ctx.pool.max_bet && s <= ctx.player_funds && ctx.vault.balance + s
            <= u64::MAX && ctx.pool.total_wagered + s <= u64::MAX ==> {
            &&& place_bet_error(ctx, s) is None
            &&& after_stake(ctx, s).vault.balance == ctx.vault.balance + s
            &&& after_stake(ctx, s).player_funds == ctx.player_funds - s
        },
        !(ctx.pool.min_bet <= s <= ctx.pool.max_bet) ==> place_bet_error(ctx, s) == Some(
            GamblingError::InvalidBetAmount,
        ),
{
}

/// Once a settlement has succeeded, settling the resulting bet again fails
/// with `BetAlreadySettled`, whoever asks, whatever outcome is supplied and
/// whatever the accounts hold; a refused settlement changes nothing, so the
/// first result stands.
pub proof fn lemma_settlement_is_one_shot(
    ctx: SettleBet,
    actual: u64,
    retry: SettleBet,
    actual_again: u64,
)
    requires
        settle_bet_spec(ctx, actual) is Ok,
        retry.bet == after_settlement(ctx, actual, settle_bet_spec(ctx, actual)->Ok_0).bet,
    ensures
        settle_bet_spec(retry, actual_again) == Err::<crate::payout::Payout, GamblingError>(
            GamblingError::BetAlreadySettled,
        ),
{
}

/// A freshly placed bet is well formed, and settling a well-formed bet keeps
/// it well formed while leaving its player, pool, stake, prediction and
/// creation time as they were: in particular a lost bet pays nothing.
pub proof fn lemma_bet_record_invariant(
    place: PlaceBet,
    amount: u64,
    predicted: u64,
    timestamp: i64,
    bump: u8,
    ctx: SettleBet,
    actual: u64,
)
    requires
        ctx.bet.wf(),
        settle_bet_spec(ctx, actual) is Ok,
    ensures
        open_bet(place, amount, predicted, timestamp, bump).wf(),
        ({
            let after = after_settlement(ctx, actual, settle_bet_spec(ctx, actual)->Ok_0).bet;
            &&& after.wf()
            &&& after.settled
            &&& after.player == ctx.bet.player
            &&& after.pool == ctx.bet.pool
            &&& after.amount == ctx.bet.amount
            &&& after.predicted_time_alive == ctx.bet.predicted_time_alive
            &&& after.timestamp == ctx.bet.timestamp
        }),
{
}

/// A fresh pool with zeroed totals conserves its vault from the vault's
/// current balance on.
pub proof fn lemma_fresh_pool_conserves(pool: Pool, vault: Vault)
    requires
        pool.total_wagered == 0,
        pool.total_paid_out == 0,
    ensures
        vault_conserved(pool, vault, vault.balance as int),
{
}

/// Placing a bet keeps the vault's funds accounted for.
pub proof fn lemma_place_bet_conserves(ctx: PlaceBet, s: u64, opening: int)
    requires
        vault_conserved(ctx.pool, ctx.vault, opening),
        place_bet_error(ctx, s) is None,
    ensures
        vault_conserved(after_stake(ctx, s).pool, after_stake(ctx, s).vault, opening),
{
}

/// Settling a bet keeps the vault's funds accounted for.
pub proof fn lemma_settle_bet_conserves(ctx: SettleBet, actual: u64, opening: int)
    requires
        vault_conserved(ctx.pool, ctx.vault, opening),
        settle_bet_spec(ctx, actual) is Ok,
    ensures
        ({
            let after = after_settlement(ctx, actual, settle_bet_spec(ctx, actual)->Ok_0);
            vault_conserved(after.pool, after.vault, opening)
        }),
{
}

/// In a pool whose vault is accounted for, all that was ever paid out of the
/// vault is at most all that was staked into it plus its opening balance.
pub proof fn lemma_outflow_within_inflow(pool: Pool, vault: Vault, opening: int)
    requires
        vault_conserved(pool, vault, opening),
    ensures
        pool.total_paid_out <= pool.total_wagered + opening,
{
}

} // verus!

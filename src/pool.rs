//! Pool configuration, the pool's vault, and the conservation of vault funds.
use vstd::prelude::*;

use crate::address::Address;
use crate::error::GamblingError;
use crate::payout::{BASIS_POINTS, MAX_STAKE};

verus! {

/// Configuration and running totals of one wagering market.
#[derive(Clone, Copy, Debug, PartialEq, Eq)]
pub struct Pool {
    /// The identity that configured the pool.
    pub authority: Address,
    /// Smallest admitted stake, inclusive.
    pub min_bet: u64,
    /// Largest admitted stake, inclusive.
    pub max_bet: u64,
    /// Fee rate on winning payouts, in basis points.
    pub house_edge: u16,
    /// Sum of all stakes escrowed into the vault.
    pub total_wagered: u64,
    /// Sum of all payouts disbursed from the vault.
    pub total_paid_out: u64,
    /// Derivation salt of the pool's record address.
    pub bump: u8,
}

/// The custody account of one pool: nothing but a balance.
#[derive(Clone, Copy, Debug, PartialEq, Eq, Structural)]
pub struct Vault {
    pub balance: u64,
}

/// The accounts that take part in configuring a pool.
#[derive(Clone, Copy, Debug, PartialEq, Eq)]
pub struct InitializePool {
    /// The identity that configures, and thereby owns, the pool.
    pub authority: Address,
    /// Derivation salt of the pool's record address.
    pub bump: u8,
}

/// A configuration is admitted when the stake floor is positive, the bounds
/// are ordered, the largest stake keeps every payout within `u64`, and the fee
/// rate is at most 100%.
pub open spec fn config_valid(min_bet: u64, max_bet: u64, house_edge: u16) -> bool {
    &&& 0 < min_bet
    &&& min_bet <= max_bet
    &&& max_bet <= MAX_STAKE
    &&& house_edge <= BASIS_POINTS
}

/// What the vault holds is its opening balance (stakes aside: funds the
/// authority put in) plus every stake escrowed, minus every payout made.
pub open spec fn vault_conserved(pool: Pool, vault: Vault, opening: int) -> bool {
    vault.balance + pool.total_paid_out == opening + pool.total_wagered
}

impl Pool {
    /// The pool's invariant: its configuration is admitted.
    pub open spec fn wf(&self) -> bool {
        config_valid(self.min_bet, self.max_bet, self.house_edge)
    }

    /// Whether a stake lies within the pool's inclusive bounds.
    pub open spec fn admits(&self, amount: u64) -> bool {
        self.min_bet <= amount <= self.max_bet
    }

    /// Checks the pool's invariant, for a record read from storage.
    pub fn is_valid(&self) -> (r: bool)
        ensures
            r == self.wf(),
    {
        0 < self.min_bet && self.min_bet <= self.max_bet && self.max_bet <= MAX_STAKE
            && self.house_edge as u64 <= BASIS_POINTS
    }
}

impl Vault {
    pub fn new(balance: u64) -> (r: Vault)
        ensures
            r.balance == balance,
    {
        Vault { balance }
    }
}

/// Configures a pool owned by `ctx.authority`, with zeroed running totals.
/// Fails with `InvalidPoolConfig`, and creates nothing, when the configuration
/// is not admitted.
pub fn initialize_pool(ctx: &InitializePool, min_bet: u64, max_bet: u64, house_edge: u16) -> (r:
    Result<Pool, GamblingError>)
    ensures
        r is Ok <==> config_valid(min_bet, max_bet, house_edge),
        r matches Err(e) ==> e == GamblingError::InvalidPoolConfig,
        r matches Ok(p) ==> p == (Pool {
            authority: ctx.authority,
            min_bet,
            max_bet,
            house_edge,
            total_wagered: 0,
            total_paid_out: 0,
            bump: ctx.bump,
        }),
        r matches Ok(p) ==> p.wf(),
{
    if min_bet == 0 || min_bet > max_bet || max_bet > MAX_STAKE || house_edge as u64 > BASIS_POINTS {
        return Err(GamblingError::InvalidPoolConfig);
    }
    Ok(
        Pool {
            authority: ctx.authority,
            min_bet,
            max_bet,
            house_edge,
            total_wagered: 0,
            total_paid_out: 0,
            bump: ctx.bump,
        },
    )
}

} // verus!

//! Errors surfaced by the pool operations.
use vstd::prelude::*;

verus! {

/// Why an operation was refused. Every error leaves all state untouched.
#[derive(Clone, Copy, Debug, PartialEq, Eq, Structural)]
pub enum GamblingError {
    /// The stake lies outside the pool's inclusive `[min_bet, max_bet]` range.
    InvalidBetAmount,
    /// The bet has been settled before; settlement is one-shot.
    BetAlreadySettled,
    /// The caller is not the player who owns the bet.
    UnauthorizedPlayer,
    /// The pool configuration is inconsistent (bounds, fee rate or stake floor).
    InvalidPoolConfig,
    /// The bet belongs to another pool than the one supplied.
    PoolMismatch,
    /// The vault supplied is not the one derived from the pool's address.
    InvalidVault,
    /// The player cannot cover the stake.
    InsufficientFunds,
    /// The vault cannot cover the payout.
    InsufficientVaultBalance,
    /// A balance or running total would leave the range of `u64`.
    ArithmeticOverflow,
}

impl GamblingError {
    /// A human-readable description of the error.
    pub fn message(&self) -> (r: &'static str) {
        match self {
            GamblingError::InvalidBetAmount => "Invalid bet amount",
            GamblingError::BetAlreadySettled => "Bet already settled",
            GamblingError::UnauthorizedPlayer => "Unauthorized player",
            GamblingError::InvalidPoolConfig => "Invalid pool configuration",
            GamblingError::PoolMismatch => "Bet does not belong to this pool",
            GamblingError::InvalidVault => "Vault is not derived from this pool",
            GamblingError::InsufficientFunds => "Insufficient funds",
            GamblingError::InsufficientVaultBalance => "Insufficient vault balance",
            GamblingError::ArithmeticOverflow => "Arithmetic overflow",
        }
    }
}

} // verus!

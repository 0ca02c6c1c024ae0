//! Escrow and settlement engine for a prediction wagering pool.
//!
//! A pool is configured once by its authority; players escrow a stake together
//! with a predicted survival time, and each bet is settled exactly once against
//! the observed outcome. The payout scales with the accuracy of the prediction
//! and is disbursed from the pool's vault.

pub mod address;
pub mod bet;
pub mod error;
pub mod laws;
pub mod payout;
pub mod pool;

pub use address::{vault_address, Address};
pub use bet::{place_bet, settle_bet, Bet, Outcome, PlaceBet, SettleBet};
pub use error::GamblingError;
pub use payout::{quote, Payout};
pub use pool::{initialize_pool, InitializePool, Pool, Vault};

//! An escrow that a contract holds on a ledger.
//!
//! A depositor locks an amount of a token. Until the lock runs out, a neutral
//! arbiter releases it to the beneficiary, less a fee, or refunds it; afterwards
//! the depositor may take it back alone.
//!
//! [`EscrowContract`] decides. It sees the ledger through an [`Env`], and records
//! there what it asks of the ledger as a list of [`Effect`]s, which whoever runs
//! the contract carries out in order. What each call promises, in terms of the
//! stored fields, is stated and proved in [`guarantees`]; what holds of an escrow
//! over any sequence of calls, in [`laws`].

pub mod address;
pub mod contract;
pub mod env;
pub mod error;
pub mod guarantees;
pub mod laws;
pub mod state;

pub use address::Address;
pub use contract::EscrowContract;
pub use env::{Effect, Env};
pub use error::EscrowError;
pub use state::EscrowState;

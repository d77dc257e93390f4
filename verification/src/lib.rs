//! Pooled-asset accounting engine.
//!
//! A vault tracks a shared reserve of a fungible asset, issues proportional
//! ownership claims ("shares") to depositors, accrues a time-weighted reward
//! stream to shareholders, and offers a single-transaction uncollateralized
//! borrow ("flash loan") against the reserve.
//!
//! The library holds only the state-transition logic, on plain values.  The
//! hosting environment performs the actual asset transfers, reads the clock
//! and the custody-account balances, invokes flash-loan callbacks, and
//! serializes operations so that each call here is one indivisible unit of
//! work.  Every function that mutates state either applies its whole effect
//! and returns `Ok`, or returns `Err` and leaves the state untouched, so a
//! host that aborts on `Err` gets all-or-nothing semantics for free.

pub mod flash;
pub mod laws;
pub mod math;
pub mod ops;
pub mod rewards;
pub mod state;

pub use state::AccountId;
pub use state::UserPosition;
pub use state::Vault;
pub use state::VaultError;
pub use state::MAX_CALLBACK_PROGRAMS;
pub use state::REWARD_PRECISION;

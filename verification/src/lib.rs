//! A verified accounting and governance engine for a custodial staking fund.
//!
//! The fund stakes a base asset, periodically unstakes the proceeds and
//! redeploys them across named external yield positions, and issues fungible
//! fund units representing proportional shares of the fund's net asset value.
//! Sensitive operations are gated by a threshold-authorization scheme among
//! the fund's administrators.
//!
//! The engine is a state machine over plain values: asset amounts are
//! fixed-point numbers, on-ledger entities (accounts, resources, adapter
//! components) are opaque numeric handles, and ledger time enters as an
//! argument.  The surrounding ledger runtime performs the actual asset moves
//! and feeds their observed results back into the engine.

pub mod amount;
pub mod authorization;
pub mod deposits;
pub mod errors;
pub mod fund;
pub mod governance;
pub mod laws;
pub mod lifecycle;
pub mod protocol;
pub mod registry;
pub mod valuation;
pub mod withdrawal;

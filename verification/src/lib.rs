//! Authorization and orchestration core of a leveraged-token issuer.
//!
//! The crate keeps the registry of one administrative group (its collateral
//! assets and the leveraged instruments built on them), decides for every
//! instruction whether it may go ahead, composes the calls that have to be
//! made into other on-chain modules, and normalizes oracle prices.  Talking
//! to the host itself (reading accounts, performing an invocation) is left
//! to the caller: every handler is a function from plain values to plain
//! values.

pub mod address;
pub mod error;
pub mod ids;
pub mod fixed_point;
pub mod authority;
pub mod state;
pub mod account;
pub mod invocation;
pub mod oracle;
pub mod instruction;
pub mod mint;
pub mod processor;
pub mod theorems;

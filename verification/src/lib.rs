//! Provisioning of a new fungible-token mint account on the Solana ledger.
//!
//! The library holds the workflow's logic: the funding-requirement
//! calculation, the balance gate, the construction of the initialize-mint
//! transaction, and the state machine that orders them. Network queries and
//! submission are performed by the caller, which hands their results in as
//! plain values.

pub mod balance;
pub mod identity;
pub mod ledger;
pub mod mint;
pub mod threshold;
pub mod workflow;

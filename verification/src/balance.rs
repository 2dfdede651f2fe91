//! The balance gate.
//!
//! A single readiness check at one moment in time: the balance a query
//! reported, measured against the funding threshold. When the query failed,
//! the balance counts as zero, which can never satisfy a positive threshold.

use vstd::prelude::*;

verus! {

/// The balance a query result stands for: the reported amount, or zero when
/// the query failed.
pub open spec fn observed_balance(balance_query: Option<u64>) -> u64 {
    match balance_query {
        Some(balance) => balance,
        None => 0,
    }
}

/// Whether the observed balance reaches the threshold.
pub open spec fn funded(balance_query: Option<u64>, threshold: u64) -> bool {
    observed_balance(balance_query) >= threshold
}

/// Evaluate the balance gate: true iff the observed balance is at least the
/// threshold, where a failed query is observed as zero.
pub fn is_funded(balance_query: Option<u64>, threshold: u64) -> (r: bool)
    ensures
        r == funded(balance_query, threshold),
        r == (observed_balance(balance_query) >= threshold),
{
    let balance: u64 = match balance_query {
        Some(balance) => balance,
        None => 0,
    };
    balance >= threshold
}

} // verus!

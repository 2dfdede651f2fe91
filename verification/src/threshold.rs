//! The funding-requirement calculation.
//!
//! The minimum funding a fresh mint account needs is the network-reported
//! rent-exemption cost for the fixed mint account layout plus a fixed margin
//! covering one transaction's base fee. When the rent query failed, the
//! threshold degrades to zero rather than aborting (a deliberately permissive
//! policy of this workflow).

use vstd::prelude::*;

verus! {

/// Byte length of a mint account's on-ledger layout; the size the
/// rent-exemption query is made for.
pub const MINT_ACCOUNT_BYTE_LEN: u64 = 82;

/// Fixed margin, in the ledger's smallest unit, covering one transaction's
/// base fee.
pub const FEE_MARGIN_LAMPORTS: u64 = 5000;

/// The funding threshold as a mathematical value: rent-exemption cost plus
/// the fee margin, or zero when the rent query failed.
pub open spec fn threshold_of(rent_query: Option<u64>) -> int {
    match rent_query {
        Some(rent) => rent + FEE_MARGIN_LAMPORTS,
        None => 0,
    }
}

/// Combine the rent-exemption query's result with the fee margin.
///
/// Returns exactly `rent + FEE_MARGIN_LAMPORTS` when the query succeeded and
/// `0` when it failed.
pub fn compute_threshold(rent_query: Option<u64>) -> (t: u64)
    requires
        rent_query matches Some(rent) ==> rent + FEE_MARGIN_LAMPORTS <= u64::MAX,
    ensures
        t == threshold_of(rent_query),
{
    match rent_query {
        Some(rent) => rent + FEE_MARGIN_LAMPORTS,
        None => 0,
    }
}

} // verus!

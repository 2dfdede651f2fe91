//! The mint account's parameters and the initialize-mint transaction.
//!
//! The workflow self-mints: the new identity is at once the mint account,
//! the mint authority, the freeze authority and the fee payer.

use vstd::prelude::*;

use crate::identity::SigningIdentity;
use crate::ledger;

verus! {

/// Decimal precision of every mint this workflow creates.
pub const MINT_DECIMALS: u8 = 9;

/// The parameters of the mint to be created. Immutable once built.
pub struct MintAccountSpec {
    /// Address of the new mint account.
    pub mint_address: solana_program::pubkey::Pubkey,
    /// The key permitted to mint new units.
    pub mint_authority: solana_program::pubkey::Pubkey,
    /// The key permitted to freeze token accounts, if one is set.
    pub freeze_authority: Option<solana_program::pubkey::Pubkey>,
    /// Decimal precision of the token.
    pub decimals: u8,
}

/// The base flow's shape of a mint spec: the given address is at once the
/// mint account, the mint authority and the freeze authority, and the
/// decimal precision is the fixed constant.
pub open spec fn self_minting(
    s: MintAccountSpec,
    address: solana_program::pubkey::Pubkey,
) -> bool {
    &&& s.mint_address == address
    &&& s.mint_authority == address
    &&& s.freeze_authority == Some(address)
    &&& s.decimals == MINT_DECIMALS
}

impl MintAccountSpec {
    /// Build the spec of a mint owned by the given identity: its address is
    /// the identity's own address, as are both authorities.
    pub fn for_identity(identity: &SigningIdentity) -> (s: MintAccountSpec)
        ensures
            self_minting(s, identity.addr()),
    {
        MintAccountSpec {
            mint_address: identity.address(),
            mint_authority: identity.address(),
            freeze_authority: Some(identity.address()),
            decimals: MINT_DECIMALS,
        }
    }
}

/// Assemble the signed initialize-mint transaction: one instruction built
/// from the spec's parameters, the identity as fee payer, signed by the
/// identity's keypair, time-bounded by the given recent block hash.
pub fn build_mint_transaction(
    identity: &SigningIdentity,
    s: &MintAccountSpec,
    recent_blockhash: solana_program::hash::Hash,
) -> solana_sdk::transaction::Transaction
    requires
        s.mint_address == identity.addr(),
{
    let freeze: Option<&solana_program::pubkey::Pubkey> = match &s.freeze_authority {
        Some(address) => Some(address),
        None => None,
    };
    let instruction = ledger::build_initialize_mint_instruction(
        &s.mint_address,
        &s.mint_authority,
        freeze,
        s.decimals,
    );
    ledger::sign_single_payer(instruction, identity.borrow_keypair(), recent_blockhash)
}

} // verus!

//! The signing identity a provisioning attempt runs under.
//!
//! A fresh keypair is generated for every attempt; the identity pays the
//! fees and rent itself and becomes the mint account and its authorities.

use vstd::prelude::*;

use crate::ledger;

verus! {

/// An asymmetric signing identity: the keypair and its derived public
/// address, captured once at generation.
pub struct SigningIdentity {
    keypair: solana_sdk::signer::keypair::Keypair,
    address: solana_program::pubkey::Pubkey,
}

impl SigningIdentity {
    /// The identity's public address.
    pub closed spec fn addr(&self) -> solana_program::pubkey::Pubkey {
        self.address
    }

    /// Generate a fresh identity from cryptographically secure randomness.
    /// Always succeeds; the address is the keypair's own public address.
    pub fn generate() -> SigningIdentity {
        let keypair = ledger::new_keypair();
        let address = ledger::keypair_address(&keypair);
        SigningIdentity { keypair, address }
    }

    /// The public address, as captured at generation.
    pub fn address(&self) -> (r: solana_program::pubkey::Pubkey)
        ensures
            r == self.addr(),
    {
        ledger::copy_address(&self.address)
    }

    /// A displayable encoding of the private key material, for the operator
    /// to note down.
    pub fn private_key_display(&self) -> String {
        ledger::keypair_display(&self.keypair)
    }

    /// The keypair itself, for signing.
    pub(crate) fn borrow_keypair(&self) -> &solana_sdk::signer::keypair::Keypair {
        &self.keypair
    }
}

} // verus!

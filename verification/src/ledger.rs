//! Declarations of the ledger SDK's types and the trusted calls into it.
//!
//! Every call into the Solana SDK or the token program's client library goes
//! through one of the wrappers below; the rest of the crate is verified
//! against their contracts.

use vstd::prelude::*;

verus! {

/// A 32-byte account address. Opaque here: the workflow only carries
/// addresses, it never reads their bytes.
#[verifier::external_type_specification]
#[verifier::external_body]
pub struct ExPubkey(solana_program::pubkey::Pubkey);

/// An ed25519 signing keypair held in process memory.
#[verifier::external_type_specification]
#[verifier::external_body]
pub struct ExKeypair(solana_sdk::signer::keypair::Keypair);

/// A recent block hash, used to time-bound a transaction's validity.
#[verifier::external_type_specification]
#[verifier::external_body]
pub struct ExHash(solana_program::hash::Hash);

/// One instruction for an on-ledger program.
#[verifier::external_type_specification]
#[verifier::external_body]
pub struct ExInstruction(solana_program::instruction::Instruction);

/// A signed transaction ready for submission.
#[verifier::external_type_specification]
#[verifier::external_body]
pub struct ExTransaction(solana_sdk::transaction::Transaction);

/// Relies on solana_sdk's Keypair::new: a fresh keypair from the operating
/// system's cryptographically secure randomness. Nothing can be promised of
/// a random value.
#[verifier::external_body]
pub(crate) fn new_keypair() -> solana_sdk::signer::keypair::Keypair {
    solana_sdk::signer::keypair::Keypair::new()
}

/// Relies on solana_sdk's Signer::pubkey for Keypair: the public address
/// derived from the keypair's public key bytes.
#[verifier::external_body]
pub(crate) fn keypair_address(
    keypair: &solana_sdk::signer::keypair::Keypair,
) -> solana_program::pubkey::Pubkey {
    solana_sdk::signer::Signer::pubkey(keypair)
}

/// Relies on solana_sdk's Keypair::to_base58_string: a displayable encoding
/// of the private key material.
#[verifier::external_body]
pub(crate) fn keypair_display(
    keypair: &solana_sdk::signer::keypair::Keypair,
) -> String {
    keypair.to_base58_string()
}

/// Relies on spl_token::instruction::initialize_mint, called with the token
/// program's own id: check_program_account then always passes, so the builder
/// always returns Ok, and the instruction carries exactly the given mint
/// address, mint authority, freeze authority and decimal count.
#[verifier::external_body]
pub(crate) fn build_initialize_mint_instruction(
    mint_address: &solana_program::pubkey::Pubkey,
    mint_authority: &solana_program::pubkey::Pubkey,
    freeze_authority: Option<&solana_program::pubkey::Pubkey>,
    decimals: u8,
) -> solana_program::instruction::Instruction {
    spl_token::instruction::initialize_mint(
        &spl_token::id(),
        mint_address,
        mint_authority,
        freeze_authority,
        decimals,
    )
    .unwrap()
}

/// Relies on solana_sdk's Transaction::new_signed_with_payer, with the given
/// keypair as the sole signer and its own address as fee payer: the payer is
/// then always among the required signers, so signing cannot fail.
#[verifier::external_body]
pub(crate) fn sign_single_payer(
    instruction: solana_program::instruction::Instruction,
    keypair: &solana_sdk::signer::keypair::Keypair,
    recent_blockhash: solana_program::hash::Hash,
) -> solana_sdk::transaction::Transaction {
    solana_sdk::transaction::Transaction::new_signed_with_payer(
        &[instruction],
        Some(&solana_sdk::signer::Signer::pubkey(keypair)),
        &[keypair],
        recent_blockhash,
    )
}

/// Relies on Pubkey being a plain 32-byte Copy value: the copy equals the
/// original.
#[verifier::external_body]
pub(crate) fn copy_address(
    address: &solana_program::pubkey::Pubkey,
) -> (r: solana_program::pubkey::Pubkey)
    ensures
        r == *address,
{
    *address
}

} // verus!

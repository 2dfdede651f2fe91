use mint_provision::balance::is_funded;
use mint_provision::identity::SigningIdentity;
use mint_provision::mint::{MintAccountSpec, MINT_DECIMALS};
use mint_provision::threshold::{compute_threshold, FEE_MARGIN_LAMPORTS, MINT_ACCOUNT_BYTE_LEN};
use mint_provision::workflow::{MintProvisioningWorkflow, ProvisioningOutcome, WorkflowState};
use solana_program::program_pack::Pack;
use solana_sdk::signer::keypair::Keypair;
use solana_sdk::signer::Signer;

#[test]
fn threshold_adds_margin_to_rent() {
    assert_eq!(compute_threshold(Some(1_461_600)), 1_466_600);
    assert_eq!(compute_threshold(Some(0)), FEE_MARGIN_LAMPORTS);
    assert_eq!(compute_threshold(Some(1)), FEE_MARGIN_LAMPORTS + 1);
}

#[test]
fn threshold_query_failure_degrades_to_zero() {
    assert_eq!(compute_threshold(None), 0);
}

#[test]
fn balance_gate_compares_against_threshold() {
    assert!(is_funded(Some(2_000_000), 1_466_600));
    assert!(is_funded(Some(1_466_600), 1_466_600));
    assert!(!is_funded(Some(1_466_599), 1_466_600));
    assert!(!is_funded(Some(0), 1));
}

#[test]
fn balance_gate_fails_closed_on_query_failure() {
    assert!(!is_funded(None, 1));
    assert!(!is_funded(None, 1_466_600));
    // A zero threshold is met even by the fallback balance of zero.
    assert!(is_funded(None, 0));
}

#[test]
fn generate_produces_distinct_identities() {
    let a = SigningIdentity::generate();
    let b = SigningIdentity::generate();
    assert_ne!(a.address(), b.address());
}

#[test]
fn identity_address_is_stable() {
    let identity = SigningIdentity::generate();
    assert_eq!(identity.address(), identity.address());
}

#[test]
fn private_key_display_recovers_the_keypair() {
    let identity = SigningIdentity::generate();
    let recovered = Keypair::from_base58_string(&identity.private_key_display());
    assert_eq!(recovered.pubkey(), identity.address());
}

#[test]
fn mint_spec_is_self_minting() {
    let identity = SigningIdentity::generate();
    let spec = MintAccountSpec::for_identity(&identity);
    assert_eq!(spec.mint_address, identity.address());
    assert_eq!(spec.mint_authority, identity.address());
    assert_eq!(spec.freeze_authority, Some(identity.address()));
    assert_eq!(spec.decimals, MINT_DECIMALS);
    assert_eq!(spec.decimals, 9);
}

#[test]
fn mint_account_byte_len_matches_token_program_layout() {
    assert_eq!(MINT_ACCOUNT_BYTE_LEN, spl_token::state::Mint::LEN as u64);
    assert_eq!(MINT_ACCOUNT_BYTE_LEN, 82);
}

#[test]
fn funded_workflow_reaches_initialized() {
    let mut workflow = MintProvisioningWorkflow::new();
    assert_eq!(workflow.state(), WorkflowState::Created);
    assert!(!workflow.may_initialize());

    let report = workflow.start(Some(1_461_600));
    assert_eq!(report.funding_threshold, 1_466_600);
    assert_eq!(workflow.state(), WorkflowState::AwaitingFunding);

    let gate = workflow.check_funding(Some(2_000_000));
    assert_eq!(gate, None);
    assert_eq!(workflow.state(), WorkflowState::Funded);
    assert!(workflow.may_initialize());

    let recent = solana_sdk::hash::Hash::default();
    let tx = workflow.build_transaction(recent);

    // The identity pays its own fees: the first (writable, signing) key is
    // the fresh address, and the signature verifies against the message.
    assert_eq!(tx.message.account_keys[0], report.address);
    assert!(tx.verify().is_ok());

    // The one instruction is the token program's initialize-mint for the
    // identity's address, with itself as both authorities and 9 decimals.
    assert_eq!(tx.message.instructions.len(), 1);
    let compiled = &tx.message.instructions[0];
    let program_id = tx.message.account_keys[compiled.program_id_index as usize];
    assert_eq!(program_id, spl_token::id());
    let expected = spl_token::instruction::initialize_mint(
        &spl_token::id(),
        &report.address,
        &report.address,
        Some(&report.address),
        9,
    )
    .unwrap();
    assert_eq!(compiled.data, expected.data);

    let outcome = workflow.record_submission(Ok(()));
    assert_eq!(outcome, ProvisioningOutcome::Success);
    assert_eq!(workflow.state(), WorkflowState::Initialized);
    assert!(!workflow.may_initialize());
}

#[test]
fn zero_balance_ends_in_insufficiently_funded() {
    let mut workflow = MintProvisioningWorkflow::new();
    workflow.start(Some(1_461_600));
    let gate = workflow.check_funding(Some(0));
    assert_eq!(gate, Some(ProvisioningOutcome::InsufficientFunds));
    assert_eq!(workflow.state(), WorkflowState::InsufficientlyFunded);
    assert!(!workflow.may_initialize());
}

#[test]
fn failed_balance_query_ends_in_insufficiently_funded() {
    let mut workflow = MintProvisioningWorkflow::new();
    workflow.start(Some(1_461_600));
    let gate = workflow.check_funding(None);
    assert_eq!(gate, Some(ProvisioningOutcome::InsufficientFunds));
    assert_eq!(workflow.state(), WorkflowState::InsufficientlyFunded);
    assert!(!workflow.may_initialize());
}

#[test]
fn submission_error_is_reported_and_terminal() {
    let mut workflow = MintProvisioningWorkflow::new();
    workflow.start(Some(1_461_600));
    assert_eq!(workflow.check_funding(Some(2_000_000)), None);
    let outcome = workflow.record_submission(Err("blockhash not found".to_string()));
    assert_eq!(
        outcome,
        ProvisioningOutcome::SubmissionFailed("blockhash not found".to_string())
    );
    assert_eq!(workflow.state(), WorkflowState::Failed);
    // Terminal: no retry, the workflow no longer permits initialization.
    assert!(!workflow.may_initialize());
}

#[test]
fn failed_rent_query_degrades_to_a_zero_threshold() {
    let mut workflow = MintProvisioningWorkflow::new();
    let report = workflow.start(None);
    assert_eq!(report.funding_threshold, 0);
    // The permissive zero fallback: a zero threshold is satisfied even by
    // the zero balance a failed query counts as.
    assert_eq!(workflow.check_funding(None), None);
    assert_eq!(workflow.state(), WorkflowState::Funded);
}

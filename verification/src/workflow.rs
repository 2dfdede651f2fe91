//! The provisioning workflow's state machine.
//!
//! One provisioning attempt runs `Created -> AwaitingFunding ->
//! Funded | InsufficientlyFunded -> Initialized | Failed`. The caller drives
//! it: it performs the network queries and the submission, and hands their
//! results in as plain values. Initialization is gated on the funding check:
//! the transaction-building and submission-recording operations demand the
//! `Funded` state, which only a successful funding check produces.

use vstd::prelude::*;

use crate::balance;
use crate::identity::SigningIdentity;
use crate::mint;
use crate::mint::MintAccountSpec;
use crate::threshold;

verus! {

/// The states one provisioning attempt moves through. `Initialized`,
/// `InsufficientlyFunded` and `Failed` are terminal for the attempt.
#[derive(Clone, Copy, Debug, PartialEq, Eq, Structural)]
pub enum WorkflowState {
    /// Fresh workflow; no identity generated yet.
    Created,
    /// Identity and threshold reported; waiting for the operator to fund.
    AwaitingFunding,
    /// The funding check passed; initialization may proceed.
    Funded,
    /// The funding check failed; terminal for this attempt.
    InsufficientlyFunded,
    /// The network confirmed the initialize-mint transaction.
    Initialized,
    /// The submission was rejected or not confirmed.
    Failed,
}

/// The reported result of one provisioning attempt.
#[derive(Debug, PartialEq, Eq)]
pub enum ProvisioningOutcome {
    /// The network confirmed the initialize-mint transaction.
    Success,
    /// The balance gate reported the identity underfunded.
    InsufficientFunds,
    /// The submission failed, with the gateway's error text.
    SubmissionFailed(String),
}

/// What `start` reports back for the operator: where to send funds, the
/// private key to note down, and how much funding is needed.
pub struct StartReport {
    /// The fresh identity's public address, to be funded.
    pub address: solana_program::pubkey::Pubkey,
    /// Displayable encoding of the private key material.
    pub private_key_display: String,
    /// The minimum funding the balance gate will demand.
    pub funding_threshold: u64,
}

/// The state a funding check moves the workflow to.
pub open spec fn check_transition(balance_query: Option<u64>, threshold: u64) -> WorkflowState {
    if balance::funded(balance_query, threshold) {
        WorkflowState::Funded
    } else {
        WorkflowState::InsufficientlyFunded
    }
}

/// Whether a state permits building and submitting the initialize-mint
/// transaction.
pub open spec fn permits_initialization(state: WorkflowState) -> bool {
    state == WorkflowState::Funded
}

/// Initialization is gated on the funding check: after a funding check, the
/// workflow permits initialization exactly when the observed balance reached
/// the threshold. A failed or insufficient balance query can never lead to a
/// submission.
pub proof fn lemma_initialization_gated_on_funding(balance_query: Option<u64>, threshold: u64)
    ensures
        permits_initialization(check_transition(balance_query, threshold))
            <==> balance::funded(balance_query, threshold),
{
}

/// One provisioning attempt: a fresh identity, its funding threshold, and
/// the attempt's current state.
pub struct MintProvisioningWorkflow {
    state: WorkflowState,
    threshold: u64,
    identity: Option<SigningIdentity>,
}

impl MintProvisioningWorkflow {
    /// The attempt's current state.
    pub closed spec fn state_of(&self) -> WorkflowState {
        self.state
    }

    /// The funding threshold computed at start.
    pub closed spec fn funding_threshold(&self) -> u64 {
        self.threshold
    }

    /// The generated identity's address, once one exists.
    pub closed spec fn identity_address(&self) -> Option<solana_program::pubkey::Pubkey> {
        match self.identity {
            Some(identity) => Some(identity.addr()),
            None => None,
        }
    }

    /// Internal consistency: every state past `Created` holds an identity.
    pub closed spec fn wf(&self) -> bool {
        self.state != WorkflowState::Created ==> self.identity is Some
    }

    /// The attempt's current state.
    pub fn state(&self) -> (s: WorkflowState)
        ensures
            s == self.state_of(),
    {
        self.state
    }

    /// A fresh attempt, before any identity is generated.
    pub fn new() -> (w: MintProvisioningWorkflow)
        ensures
            w.state_of() == WorkflowState::Created,
            w.wf(),
    {
        MintProvisioningWorkflow { state: WorkflowState::Created, threshold: 0, identity: None }
    }

    /// Generate the identity and compute the funding threshold from the
    /// rent-exemption query's result; the attempt then awaits funding. The
    /// report carries the address to fund, the private key display, and the
    /// threshold the balance gate will demand.
    pub fn start(&mut self, rent_query: Option<u64>) -> (r: StartReport)
        requires
            old(self).state_of() == WorkflowState::Created,
            rent_query matches Some(rent)
                ==> rent + threshold::FEE_MARGIN_LAMPORTS <= u64::MAX,
        ensures
            final(self).state_of() == WorkflowState::AwaitingFunding,
            final(self).funding_threshold() == threshold::threshold_of(rent_query),
            r.funding_threshold == final(self).funding_threshold(),
            final(self).identity_address() matches Some(address) && r.address == address,
            final(self).wf(),
    {
        let identity = SigningIdentity::generate();
        let t = threshold::compute_threshold(rent_query);
        let report = StartReport {
            address: identity.address(),
            private_key_display: identity.private_key_display(),
            funding_threshold: t,
        };
        self.state = WorkflowState::AwaitingFunding;
        self.threshold = t;
        self.identity = Some(identity);
        report
    }

    /// Run the balance gate on the balance query's result. When the observed
    /// balance (zero when the query failed) reaches the threshold, the
    /// attempt moves to `Funded` and initialization may proceed; otherwise it
    /// ends in the terminal `InsufficientlyFunded` with the
    /// `InsufficientFunds` outcome.
    pub fn check_funding(&mut self, balance_query: Option<u64>) -> (outcome: Option<
        ProvisioningOutcome,
    >)
        requires
            old(self).state_of() == WorkflowState::AwaitingFunding,
            old(self).wf(),
        ensures
            outcome is None == balance::funded(balance_query, old(self).funding_threshold()),
            outcome matches Some(o) ==> o is InsufficientFunds,
            final(self).state_of()
                == check_transition(balance_query, old(self).funding_threshold()),
            outcome is None <==> permits_initialization(final(self).state_of()),
            final(self).funding_threshold() == old(self).funding_threshold(),
            final(self).identity_address() == old(self).identity_address(),
            final(self).wf(),
    {
        let funded = balance::is_funded(balance_query, self.threshold);
        if funded {
            self.state = WorkflowState::Funded;
            None
        } else {
            self.state = WorkflowState::InsufficientlyFunded;
            Some(ProvisioningOutcome::InsufficientFunds)
        }
    }

    /// Whether the attempt is in the one state from which the initialize-mint
    /// transaction may be built and submitted.
    pub fn may_initialize(&self) -> (r: bool)
        ensures
            r == permits_initialization(self.state_of()),
    {
        self.state == WorkflowState::Funded
    }

    /// Build the signed initialize-mint transaction for this attempt's
    /// identity: the identity is the mint account, both authorities and the
    /// fee payer. Demands the `Funded` state, so it is unreachable unless the
    /// immediately preceding funding check passed.
    pub fn build_transaction(
        &self,
        recent_blockhash: solana_program::hash::Hash,
    ) -> solana_sdk::transaction::Transaction
        requires
            self.state_of() == WorkflowState::Funded,
            self.wf(),
    {
        let identity = match &self.identity {
            Some(identity) => identity,
            None => vstd::pervasive::unreached(),
        };
        let s = MintAccountSpec::for_identity(identity);
        mint::build_mint_transaction(identity, &s, recent_blockhash)
    }

    /// Record the submission's result: confirmation ends the attempt in
    /// `Initialized` with `Success`; a gateway error ends it in `Failed` with
    /// `SubmissionFailed` carrying the gateway's error text. Either way the
    /// attempt is terminal — there is no retry — and the identity is kept
    /// unchanged, never reused for another attempt.
    pub fn record_submission(&mut self, submission: Result<(), String>) -> (out: ProvisioningOutcome)
        requires
            old(self).state_of() == WorkflowState::Funded,
            old(self).wf(),
        ensures
            submission is Ok ==> {
                &&& final(self).state_of() == WorkflowState::Initialized
                &&& out is Success
            },
            submission matches Err(reason) ==> {
                &&& final(self).state_of() == WorkflowState::Failed
                &&& out matches ProvisioningOutcome::SubmissionFailed(text) && text == reason
            },
            final(self).funding_threshold() == old(self).funding_threshold(),
            final(self).identity_address() == old(self).identity_address(),
            final(self).wf(),
    {
        match submission {
            Ok(()) => {
                self.state = WorkflowState::Initialized;
                ProvisioningOutcome::Success
            },
            Err(reason) => {
                self.state = WorkflowState::Failed;
                ProvisioningOutcome::SubmissionFailed(reason)
            },
        }
    }
}

} // verus!

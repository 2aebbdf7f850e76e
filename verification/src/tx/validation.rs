//! Validation of transactions against a state: who may sign what, nonces, balances, meters,
//! delegation proofs, settlements, disputes and policies.
use crate::crypto::{ed25519_key_valid, ed25519_verify, public_key_from_bytes, verify_with_key};
use crate::encoding::to_array64;
use crate::error::{outcome, same_outcome, Error, ErrorKind, Result};
use crate::evidence::evidence_hash_of;
use crate::nameset::NameSet;
use crate::state::account::{sat_add, sat_sub};
use crate::state::policy::{config_valid, policy_key_of, scope_key_of, PolicyVersionId};
use crate::table::pairs_to_map;
use crate::state::settlement::{
    is_finalized_status, payable_of, settlement_key_of, ClaimId, ClaimStatus, DisputeId,
    DisputeStatus, SettlementId, SettlementStatus,
};
use crate::state::{
    account_or_new, consumption_of, has_active_meter_view, latest_version, State, StateView,
};
use crate::text::{colon, concat2, concat3, decimal, owned, str_eq, text_num_text_num};
use crate::tx::delegation::{
    chain_address, enc_claims, parse_signed_proof, principal_key, read_signed_proof_spec,
};
use crate::tx::transaction::{
    effective_version, Pricing, SignedTx, SignedTxView, Transaction, TransactionView,
    PAYLOAD_VERSION_V2,
};
use vstd::prelude::*;

pub use crate::tx::delegation::{
    build_signed_proof, capability_id, delegation_claims_to_sign, principal_to_chain_address,
    principal_to_public_key, DelegationProofMinimal, SignedDelegationProof,
};

verus! {

broadcast use vstd::string::group_string_axioms;

/// Live: the wall clock is used (`now`, `max_age`). Replay: no wall clock, only the signed
/// reference time.
#[derive(Debug, Clone, Copy, PartialEq, Eq, Structural)]
pub enum ValidationMode {
    Live,
    Replay,
}

/// Context of a validation: the mode, the clock where Live, and the position of the
/// transaction in the log where known.
#[derive(Debug, Clone, Copy, PartialEq, Eq)]
pub struct ValidationContext {
    pub mode: ValidationMode,
    /// Required in Live mode.
    pub now: Option<u64>,
    /// Required in Live mode for delegated consumption.
    pub max_age: Option<u64>,
    /// Position of the transaction in the log: policy effectiveness and binding.
    pub next_tx_id: Option<u64>,
}

impl ValidationContext {
    pub fn live(now: u64, max_age: u64) -> (c: ValidationContext)
        ensures
            c == (ValidationContext {
                mode: ValidationMode::Live,
                now: Some(now),
                max_age: Some(max_age),
                next_tx_id: None,
            }),
    {
        ValidationContext {
            mode: ValidationMode::Live,
            now: Some(now),
            max_age: Some(max_age),
            next_tx_id: None,
        }
    }

    pub fn replay() -> (c: ValidationContext)
        ensures
            c == (ValidationContext {
                mode: ValidationMode::Replay,
                now: None,
                max_age: None,
                next_tx_id: None,
            }),
    {
        ValidationContext { mode: ValidationMode::Replay, now: None, max_age: None, next_tx_id: None }
    }

    /// Replay of the transaction at position `tx_id` of the log.
    pub fn replay_for_tx(tx_id: u64) -> (c: ValidationContext)
        ensures
            c == (ValidationContext {
                mode: ValidationMode::Replay,
                now: None,
                max_age: None,
                next_tx_id: Some(tx_id),
            }),
    {
        ValidationContext {
            mode: ValidationMode::Replay,
            now: None,
            max_age: None,
            next_tx_id: Some(tx_id),
        }
    }
}

/// The ability a delegation proof must name, when it names one, to allow consumption.
pub open spec fn ability_consume() -> Seq<char> {
    seq!['c', 'o', 'n', 's', 'u', 'm', 'e']
}

/// The ability a delegation proof must name, when it names one, to allow consumption.
pub fn ability_consume_text() -> (r: &'static str)
    ensures
        r@ == ability_consume(),
{
    proof {
        reveal_strlit("consume");
    }
    "consume"
}

/// The authorized signers, where the caller restricts them.
pub open spec fn minters_view(m: Option<&NameSet>) -> Option<Set<Seq<char>>> {
    match m {
        Some(s) => Some(s@),
        None => None,
    }
}

/// Whether the signer may act as authority: always when no set is given (replay).
pub open spec fn authorized(minters: Option<Set<Seq<char>>>, signer: Seq<char>) -> bool {
    match minters {
        None => true,
        Some(m) => m.contains(signer),
    }
}

/// The set of authorized signers is well formed, where given.
pub open spec fn minters_wf(m: Option<&NameSet>) -> bool {
    match m {
        Some(s) => s.wf(),
        None => true,
    }
}

/// The cost of `units` under `pricing`; `None` where it overflows a `u64`.
pub open spec fn cost_of(units: u64, pricing: Pricing) -> Option<u64> {
    match pricing {
        Pricing::UnitPrice(p) => if units * p <= u64::MAX {
            Some((units * p) as u64)
        } else {
            None
        },
        Pricing::FixedCost(c) => Some(c),
    }
}

/// The account at `a` exists and its nonce is `nonce`; otherwise InvalidTransaction.
pub open spec fn account_nonce_error(s: StateView, a: Seq<char>, nonce: u64) -> Option<ErrorKind> {
    if !s.accounts.contains_key(a) || s.accounts[a].nonce != nonce {
        Some(ErrorKind::InvalidTransaction)
    } else {
        None
    }
}

/// Authority-signed transactions: an authorized signer whose nonce (0 for a new account)
/// is the transaction's.
pub open spec fn authority_error(s: StateView, t: SignedTxView, minters: Option<Set<Seq<char>>>) -> Option<ErrorKind> {
    if !authorized(minters, t.signer) {
        Some(ErrorKind::InvalidTransaction)
    } else if t.nonce != account_or_new(s, t.signer).nonce {
        Some(ErrorKind::InvalidTransaction)
    } else {
        None
    }
}

pub open spec fn mint_error(t: SignedTxView, minters: Option<Set<Seq<char>>>) -> Option<ErrorKind> {
    match t.kind {
        TransactionView::Mint { amount, .. } => if !authorized(minters, t.signer) || amount == 0 {
            Some(ErrorKind::InvalidTransaction)
        } else {
            None
        },
        _ => Some(ErrorKind::InvalidTransaction),
    }
}

pub open spec fn open_meter_error(s: StateView, t: SignedTxView) -> Option<ErrorKind> {
    match t.kind {
        TransactionView::OpenMeter { owner, service_id, deposit } => {
            if t.signer != owner {
                Some(ErrorKind::InvalidTransaction)
            } else if account_nonce_error(s, t.signer, t.nonce) is Some {
                Some(ErrorKind::InvalidTransaction)
            } else if deposit == 0 || s.accounts[t.signer].balance < deposit {
                Some(ErrorKind::InvalidTransaction)
            } else if has_active_meter_view(s, owner, service_id) {
                Some(ErrorKind::InvalidTransaction)
            } else {
                None
            }
        },
        _ => Some(ErrorKind::InvalidTransaction),
    }
}

/// Shared consumption rules: an active meter, positive units and price; the cost.
pub open spec fn metering_result(
    s: StateView,
    owner: Seq<char>,
    service_id: Seq<char>,
    units: u64,
    pricing: Pricing,
) -> core::result::Result<u64, ErrorKind> {
    if !has_active_meter_view(s, owner, service_id) {
        Err(ErrorKind::InvalidTransaction)
    } else if units == 0 {
        Err(ErrorKind::InvalidTransaction)
    } else if (match pricing {
        Pricing::UnitPrice(p) => p == 0,
        Pricing::FixedCost(c) => c == 0,
    }) {
        Err(ErrorKind::InvalidTransaction)
    } else {
        match cost_of(units, pricing) {
            Some(c) => Ok(c),
            None => Err(ErrorKind::InvalidTransaction),
        }
    }
}

/// Time rules of a delegated consumption in Live mode.
pub open spec fn live_time_error(ctx: ValidationContext, valid_at: u64) -> Option<ErrorKind> {
    if ctx.mode == ValidationMode::Live {
        match ctx.now {
            None => Some(ErrorKind::InvalidValidationContextLiveNowMissing),
            Some(now) => match ctx.max_age {
                None => Some(ErrorKind::InvalidValidationContextLiveMaxAgeMissing),
                Some(max_age) => if valid_at > now {
                    Some(ErrorKind::ReferenceTimeFuture)
                } else if sat_sub(now, valid_at) > max_age {
                    Some(ErrorKind::ReferenceTimeTooOld)
                } else {
                    None
                },
            },
        }
    } else {
        None
    }
}

/// The issuer signed the claims: its key decodes and the 64-byte signature verifies over
/// the claims' canonical bytes.
pub open spec fn proof_signature_ok(issuer_key: Seq<u8>, claims: crate::tx::delegation::ClaimsView, sig: Seq<u8>) -> bool {
    sig.len() == 64 && ed25519_key_valid(issuer_key) && ed25519_verify(issuer_key, enc_claims(claims), sig)
}

/// Rules of a delegated consumption after the metering rules, in order.
pub open spec fn delegation_error(
    s: StateView,
    t: SignedTxView,
    ctx: ValidationContext,
    owner: Seq<char>,
    service_id: Seq<char>,
    units: u64,
    cost: u64,
) -> Option<ErrorKind> {
    if effective_version(t) != PAYLOAD_VERSION_V2 {
        Some(ErrorKind::DelegatedConsumeRequiresV2)
    } else if t.delegation_proof is None {
        Some(ErrorKind::DelegationProofMissing)
    } else if t.valid_at is None {
        Some(ErrorKind::ValidAtMissing)
    } else if t.nonce_account != Some(owner) {
        Some(ErrorKind::NonceAccountMissingOrInvalid)
    } else if live_time_error(ctx, t.valid_at->0) is Some {
        live_time_error(ctx, t.valid_at->0)
    } else {
        let proof_bytes = t.delegation_proof->0;
        let valid_at = t.valid_at->0;
        match read_signed_proof_spec(proof_bytes) {
            None => Some(ErrorKind::DelegationExpiredOrNotYetValid),
            Some((claims, sig)) => match principal_key(claims.issuer) {
                None => Some(ErrorKind::PrincipalBindingFailed),
                Some(issuer_key) => if !proof_signature_ok(issuer_key, claims, sig) {
                    Some(ErrorKind::DelegationExpiredOrNotYetValid)
                } else if claims.iat > valid_at || valid_at >= claims.exp {
                    Some(ErrorKind::DelegationExpiredOrNotYetValid)
                } else if principal_key(claims.audience) is None || principal_key(owner) is None
                    || principal_key(t.signer) is None {
                    Some(ErrorKind::PrincipalBindingFailed)
                } else if chain_address(principal_key(owner)->0) != chain_address(issuer_key) {
                    Some(ErrorKind::DelegationIssuerOwnerMismatch)
                } else if chain_address(principal_key(t.signer)->0) != chain_address(
                    principal_key(claims.audience)->0,
                ) {
                    Some(ErrorKind::DelegationAudienceSignerMismatch)
                } else if claims.service_id != service_id {
                    Some(ErrorKind::DelegationScopeMismatch)
                } else if claims.ability matches Some(ab) && ab != ability_consume() {
                    Some(ErrorKind::DelegationScopeMismatch)
                } else {
                    let cap = evidence_hash_of(proof_bytes);
                    let (cu, cc) = consumption_of(s, cap);
                    if s.revoked_capability_ids.contains(cap) {
                        Some(ErrorKind::DelegationRevoked)
                    } else if claims.max_units matches Some(l) && sat_add(cu, units) > l {
                        Some(ErrorKind::CapabilityLimitExceeded)
                    } else if claims.max_cost matches Some(l) && sat_add(cc, cost) > l {
                        Some(ErrorKind::CapabilityLimitExceeded)
                    } else if account_nonce_error(s, owner, t.nonce) is Some {
                        Some(ErrorKind::InvalidTransaction)
                    } else if s.accounts[owner].balance < cost {
                        Some(ErrorKind::InvalidTransaction)
                    } else {
                        None
                    }
                },
            },
        }
    }
}

/// Rules of an owner-signed consumption after the metering rules.
pub open spec fn owner_consume_error(s: StateView, t: SignedTxView, owner: Seq<char>, cost: u64) -> Option<ErrorKind> {
    if t.signer != owner {
        Some(ErrorKind::InvalidTransaction)
    } else if t.nonce_account matches Some(na) && na != owner {
        Some(ErrorKind::NonceAccountMissingOrInvalid)
    } else if account_nonce_error(s, t.signer, t.nonce) is Some {
        Some(ErrorKind::InvalidTransaction)
    } else if s.accounts[t.signer].balance < cost {
        Some(ErrorKind::InvalidTransaction)
    } else {
        None
    }
}

/// The outcome of validating a Consume: its cost, or the first rule it breaks.
pub open spec fn consume_result(s: StateView, t: SignedTxView, ctx: ValidationContext) -> core::result::Result<u64, ErrorKind> {
    match t.kind {
        TransactionView::Consume { owner, service_id, units, pricing } => match metering_result(
            s,
            owner,
            service_id,
            units,
            pricing,
        ) {
            Err(e) => Err(e),
            Ok(cost) => {
                let delegated = t.signer != owner || t.delegation_proof is Some;
                let err = if delegated {
                    delegation_error(s, t, ctx, owner, service_id, units, cost)
                } else {
                    owner_consume_error(s, t, owner, cost)
                };
                match err {
                    Some(e) => Err(e),
                    None => Ok(cost),
                }
            },
        },
        _ => Err(ErrorKind::InvalidTransaction),
    }
}

pub open spec fn close_meter_error(s: StateView, t: SignedTxView) -> Option<ErrorKind> {
    match t.kind {
        TransactionView::CloseMeter { owner, service_id } => {
            if t.signer != owner || account_nonce_error(s, t.signer, t.nonce) is Some
                || !has_active_meter_view(s, owner, service_id) {
                Some(ErrorKind::InvalidTransaction)
            } else {
                None
            }
        },
        _ => Some(ErrorKind::InvalidTransaction),
    }
}

pub open spec fn revoke_error(s: StateView, t: SignedTxView) -> Option<ErrorKind> {
    match t.kind {
        TransactionView::RevokeDelegation { owner, .. } => {
            if t.signer != owner || account_nonce_error(s, t.signer, t.nonce) is Some {
                Some(ErrorKind::InvalidTransaction)
            } else {
                None
            }
        },
        _ => Some(ErrorKind::InvalidTransaction),
    }
}

/// The settlement of a window, if any.
pub open spec fn settlement_at(s: StateView, owner: Seq<char>, service_id: Seq<char>, window_id: Seq<char>) -> Option<crate::state::settlement::SettlementView> {
    let k = settlement_key_of(owner, service_id, window_id);
    if s.settlements.contains_key(k) {
        Some(s.settlements[k])
    } else {
        None
    }
}

pub open spec fn propose_error(s: StateView, t: SignedTxView, minters: Option<Set<Seq<char>>>) -> Option<ErrorKind> {
    match t.kind {
        TransactionView::ProposeSettlement {
            owner,
            service_id,
            window_id,
            gross_spent,
            operator_share,
            protocol_fee,
            reserve_locked,
            evidence_hash,
            ..
        } => if authority_error(s, t, minters) is Some {
            authority_error(s, t, minters)
        } else if settlement_at(s, owner, service_id, window_id) is Some {
            Some(ErrorKind::DuplicateSettlementWindow)
        } else if gross_spent != sat_add(sat_add(operator_share, protocol_fee), reserve_locked) {
            Some(ErrorKind::SettlementConservationViolation)
        } else if evidence_hash.len() == 0 {
            Some(ErrorKind::InvalidTransaction)
        } else {
            None
        },
        _ => Some(ErrorKind::InvalidTransaction),
    }
}

pub open spec fn finalize_error(s: StateView, t: SignedTxView, minters: Option<Set<Seq<char>>>) -> Option<ErrorKind> {
    match t.kind {
        TransactionView::FinalizeSettlement { owner, service_id, window_id } => if authority_error(
            s,
            t,
            minters,
        ) is Some {
            authority_error(s, t, minters)
        } else {
            match settlement_at(s, owner, service_id, window_id) {
                None => Some(ErrorKind::SettlementNotFound),
                Some(st) => if st.status != SettlementStatus::Proposed {
                    Some(ErrorKind::SettlementNotProposed)
                } else {
                    None
                },
            }
        },
        _ => Some(ErrorKind::InvalidTransaction),
    }
}

/// The claim of `operator` on a window, if any.
pub open spec fn claim_at(s: StateView, operator: Seq<char>, owner: Seq<char>, service_id: Seq<char>, window_id: Seq<char>) -> Option<crate::state::settlement::ClaimView> {
    let k = operator + colon() + settlement_key_of(owner, service_id, window_id);
    if s.claims.contains_key(k) {
        Some(s.claims[k])
    } else {
        None
    }
}

pub open spec fn submit_claim_error(s: StateView, t: SignedTxView) -> Option<ErrorKind> {
    match t.kind {
        TransactionView::SubmitClaim { operator, owner, service_id, window_id, claim_amount } => {
            if t.signer != operator || t.nonce != account_or_new(s, operator).nonce {
                Some(ErrorKind::InvalidTransaction)
            } else {
                match settlement_at(s, owner, service_id, window_id) {
                    None => Some(ErrorKind::SettlementNotFound),
                    Some(st) => if !is_finalized_status(st.status) {
                        Some(ErrorKind::SettlementNotFinalized)
                    } else if claim_amount > payable_of(st) {
                        Some(ErrorKind::ClaimAmountExceedsPayable)
                    } else if claim_amount == 0 {
                        Some(ErrorKind::InvalidTransaction)
                    } else if claim_at(s, operator, owner, service_id, window_id) is Some {
                        Some(ErrorKind::InvalidTransaction)
                    } else {
                        None
                    },
                }
            }
        },
        _ => Some(ErrorKind::InvalidTransaction),
    }
}

pub open spec fn pay_claim_error(s: StateView, t: SignedTxView, minters: Option<Set<Seq<char>>>) -> Option<ErrorKind> {
    match t.kind {
        TransactionView::PayClaim { operator, owner, service_id, window_id } => if authority_error(
            s,
            t,
            minters,
        ) is Some {
            authority_error(s, t, minters)
        } else {
            match claim_at(s, operator, owner, service_id, window_id) {
                None => Some(ErrorKind::ClaimNotPending),
                Some(c) => if c.status != ClaimStatus::Pending {
                    Some(ErrorKind::ClaimNotPending)
                } else {
                    match settlement_at(s, owner, service_id, window_id) {
                        None => Some(ErrorKind::SettlementNotFound),
                        Some(st) => if st.status == SettlementStatus::Disputed {
                            Some(ErrorKind::InvalidTransaction)
                        } else if c.claim_amount > payable_of(st) {
                            Some(ErrorKind::ClaimAmountExceedsPayable)
                        } else {
                            None
                        },
                    }
                }
            }
        },
        _ => Some(ErrorKind::InvalidTransaction),
    }
}

/// The dispute on a window, if any.
pub open spec fn dispute_at(s: StateView, owner: Seq<char>, service_id: Seq<char>, window_id: Seq<char>) -> Option<crate::state::settlement::DisputeView> {
    let k = settlement_key_of(owner, service_id, window_id);
    if s.disputes.contains_key(k) {
        Some(s.disputes[k])
    } else {
        None
    }
}

/// The challenge window of a finalized settlement has passed at `now`.
pub open spec fn dispute_window_closed(st: crate::state::settlement::SettlementView, now: Option<u64>) -> bool {
    match (now, st.finalized_at, st.dispute_window_secs) {
        (Some(n), Some(f), Some(w)) => n > sat_add(f, w),
        _ => false,
    }
}

pub open spec fn open_dispute_error(
    s: StateView,
    t: SignedTxView,
    ctx: ValidationContext,
    minters: Option<Set<Seq<char>>>,
) -> Option<ErrorKind> {
    match t.kind {
        TransactionView::OpenDispute { owner, service_id, window_id, .. } => if authority_error(
            s,
            t,
            minters,
        ) is Some {
            authority_error(s, t, minters)
        } else {
            match settlement_at(s, owner, service_id, window_id) {
                None => Some(ErrorKind::SettlementNotFound),
                Some(st) => if !is_finalized_status(st.status) {
                    Some(ErrorKind::SettlementNotFinalized)
                } else if dispute_at(s, owner, service_id, window_id) matches Some(d) && d.status
                    == DisputeStatus::Open {
                    Some(ErrorKind::DisputeAlreadyOpen)
                } else if dispute_window_closed(st, ctx.now) {
                    Some(ErrorKind::InvalidTransaction)
                } else {
                    None
                },
            }
        },
        _ => Some(ErrorKind::InvalidTransaction),
    }
}

pub open spec fn resolve_dispute_error(s: StateView, t: SignedTxView, minters: Option<Set<Seq<char>>>) -> Option<ErrorKind> {
    match t.kind {
        TransactionView::ResolveDispute { owner, service_id, window_id, replay_hash, .. } => if authority_error(s, t, minters) is Some {
            authority_error(s, t, minters)
        } else if settlement_at(s, owner, service_id, window_id) is None {
            Some(ErrorKind::SettlementNotFound)
        } else {
            match dispute_at(s, owner, service_id, window_id) {
                None => Some(ErrorKind::DisputeNotFound),
                Some(d) => if d.status != DisputeStatus::Open {
                    Some(ErrorKind::DisputeNotOpen)
                } else if replay_hash.len() == 0 {
                    Some(ErrorKind::InvalidEvidenceBundle)
                } else {
                    None
                },
            }
        },
        _ => Some(ErrorKind::InvalidTransaction),
    }
}

pub open spec fn publish_error(
    s: StateView,
    t: SignedTxView,
    ctx: ValidationContext,
    minters: Option<Set<Seq<char>>>,
) -> Option<ErrorKind> {
    match t.kind {
        TransactionView::PublishPolicyVersion { scope, version, effective_from_tx_id, config } => {
            if authority_error(s, t, minters) is Some {
                authority_error(s, t, minters)
            } else if !config_valid(config) {
                Some(ErrorKind::InvalidPolicyParameters)
            } else if ctx.next_tx_id matches Some(n) && effective_from_tx_id < n {
                Some(ErrorKind::RetroactivePolicyForbidden)
            } else if latest_version(s.policy_versions, scope_key_of(scope)) matches Some(l)
                && version <= l {
                Some(ErrorKind::PolicyVersionConflict)
            } else {
                None
            }
        },
        _ => Some(ErrorKind::InvalidTransaction),
    }
}

/// A policy version with this id exists.
pub open spec fn has_policy_version(s: StateView, scope_key: Seq<char>, version: u64) -> bool {
    pairs_to_map(s.policy_versions).contains_key(policy_key_of(scope_key, version))
}

pub open spec fn supersede_error(s: StateView, t: SignedTxView, minters: Option<Set<Seq<char>>>) -> Option<ErrorKind> {
    match t.kind {
        TransactionView::SupersedePolicyVersion { scope_key, version } => if authority_error(
            s,
            t,
            minters,
        ) is Some {
            authority_error(s, t, minters)
        } else if !has_policy_version(s, scope_key, version) {
            Some(ErrorKind::PolicyNotFound)
        } else {
            None
        },
        _ => Some(ErrorKind::InvalidTransaction),
    }
}

/// The outcome of validating any transaction: the cost of a Consume (`Some`), nothing for the
/// other commands (`None`), or the first rule broken.
pub open spec fn validation_result(
    s: StateView,
    t: SignedTxView,
    ctx: ValidationContext,
    minters: Option<Set<Seq<char>>>,
) -> core::result::Result<Option<u64>, ErrorKind> {
    let err = match t.kind {
        TransactionView::Mint { .. } => mint_error(t, minters),
        TransactionView::OpenMeter { .. } => open_meter_error(s, t),
        TransactionView::Consume { .. } => None,
        TransactionView::CloseMeter { .. } => close_meter_error(s, t),
        TransactionView::RevokeDelegation { .. } => revoke_error(s, t),
        TransactionView::ProposeSettlement { .. } => propose_error(s, t, minters),
        TransactionView::FinalizeSettlement { .. } => finalize_error(s, t, minters),
        TransactionView::SubmitClaim { .. } => submit_claim_error(s, t),
        TransactionView::PayClaim { .. } => pay_claim_error(s, t, minters),
        TransactionView::OpenDispute { .. } => open_dispute_error(s, t, ctx, minters),
        TransactionView::ResolveDispute { .. } => resolve_dispute_error(s, t, minters),
        TransactionView::PublishPolicyVersion { .. } => publish_error(s, t, ctx, minters),
        TransactionView::SupersedePolicyVersion { .. } => supersede_error(s, t, minters),
    };
    match t.kind {
        TransactionView::Consume { .. } => match consume_result(s, t, ctx) {
            Ok(c) => Ok(Some(c)),
            Err(e) => Err(e),
        },
        _ => match err {
            Some(e) => Err(e),
            None => Ok(None),
        },
    }
}

fn check_account_nonce(state: &State, address: &str, nonce: u64) -> (r: Result<()>)
    requires
        state.wf(),
    ensures
        outcome(r, account_nonce_error(state@, address@, nonce)),
{
    let account = match state.get_account(address) {
        Some(a) => a,
        None => {
            return Err(Error::InvalidTransaction(concat3("Account ", address, " does not exist")));
        },
    };
    if account.nonce() != nonce {
        return Err(
            Error::InvalidTransaction(
                text_num_text_num("Nonce mismatch: expected ", account.nonce(), ", got ", nonce),
            ),
        );
    }
    Ok(())
}

fn check_authority(state: &State, tx: &SignedTx, authorized_minters: Option<&NameSet>, label: &str) -> (r: Result<()>)
    requires
        state.wf(),
        minters_wf(authorized_minters),
    ensures
        outcome(r, authority_error(state@, tx@, minters_view(authorized_minters))),
{
    if let Some(minters) = authorized_minters {
        if !minters.contains(tx.signer.as_str()) {
            return Err(
                Error::InvalidTransaction(
                    concat3(
                        concat2(label, ": signer ").as_str(),
                        tx.signer.as_str(),
                        " must be authorized minter/admin",
                    ),
                ),
            );
        }
    }
    let expected_nonce = match state.get_account(tx.signer.as_str()) {
        Some(a) => a.nonce(),
        None => 0,
    };
    if tx.nonce != expected_nonce {
        return Err(
            Error::InvalidTransaction(
                concat3(
                    concat2(label, ": Nonce mismatch for signer ").as_str(),
                    tx.signer.as_str(),
                    text_num_text_num(": expected ", expected_nonce, ", got ", tx.nonce).as_str(),
                ),
            ),
        );
    }
    Ok(())
}

/// The message of a cost that overflows.
pub open spec fn overflow_text(units: u64, unit_price: u64) -> Seq<char> {
    "Cost computation overflow: "@ + decimal(units as nat) + " units × "@ + decimal(unit_price as nat)
        + " price"@
}

/// The message refusing a Mint by a signer that is not listed.
pub open spec fn unauthorized_mint_text(signer: Seq<char>) -> Seq<char> {
    "Mint authorization failed: "@ + signer + " is not an authorized minter"@
}

/// A Mint whose signer is not in the given set of authorized signers.
pub open spec fn mint_unauthorized(t: SignedTxView, minters: Option<Set<Seq<char>>>) -> bool {
    &&& t.kind is Mint
    &&& minters matches Some(ms) && !ms.contains(t.signer)
}

/// A PayClaim that passes the authority check and names a pending claim on a disputed
/// settlement: its payout is frozen.
pub open spec fn payout_frozen(s: StateView, t: SignedTxView, minters: Option<Set<Seq<char>>>) -> bool {
    match t.kind {
        TransactionView::PayClaim { operator, owner, service_id, window_id } => {
            &&& authority_error(s, t, minters) is None
            &&& claim_at(s, operator, owner, service_id, window_id) matches Some(c)
            &&& c.status == ClaimStatus::Pending
            &&& settlement_at(s, owner, service_id, window_id) matches Some(st)
            &&& st.status == SettlementStatus::Disputed
        },
        _ => false,
    }
}

/// The cost of `units` under `pricing`; fails where the product overflows.
pub fn compute_cost(units: u64, pricing: &Pricing) -> (r: Result<u64>)
    ensures
        match cost_of(units, *pricing) {
            Some(c) => r matches Ok(x) && x == c,
            None => r matches Err(Error::InvalidTransaction(msg)) && (pricing matches Pricing::UnitPrice(
                p,
            ) && msg@ == overflow_text(units, *p)),
        },
{
    match pricing {
        Pricing::UnitPrice(unit_price) => match units.checked_mul(*unit_price) {
            Some(cost) => Ok(cost),
            None => {
                let msg = text_num_text_num(
                    "Cost computation overflow: ",
                    units,
                    " units × ",
                    *unit_price,
                );
                Err(Error::InvalidTransaction(concat2(msg.as_str(), " price")))
            },
        },
        Pricing::FixedCost(cost) => Ok(*cost),
    }
}

/// Mint: an authorized signer (when a set is given) and a positive amount.
pub fn validate_mint(_state: &State, tx: &SignedTx, authorized_minters: Option<&NameSet>) -> (r: Result<()>)
    requires
        minters_wf(authorized_minters),
    ensures
        outcome(r, mint_error(tx@, minters_view(authorized_minters))),
        mint_unauthorized(tx@, minters_view(authorized_minters)) ==> (r matches Err(
            Error::InvalidTransaction(msg),
        ) && msg@ == unauthorized_mint_text(tx.signer@)),
{
    let amount = match &tx.kind {
        Transaction::Mint { amount, .. } => *amount,
        _ => {
            return Err(Error::InvalidTransaction(owned("Expected Mint transaction")));
        },
    };
    if let Some(minters) = authorized_minters {
        if !minters.contains(tx.signer.as_str()) {
            return Err(
                Error::InvalidTransaction(
                    concat3(
                        "Mint authorization failed: ",
                        tx.signer.as_str(),
                        " is not an authorized minter",
                    ),
                ),
            );
        }
    }
    if amount == 0 {
        return Err(Error::InvalidTransaction(owned("Mint amount must be greater than zero")));
    }
    Ok(())
}

/// OpenMeter: signed by the owner, whose account exists with the transaction's nonce and
/// covers a positive deposit, and no active meter for the service.
pub fn validate_open_meter(state: &State, tx: &SignedTx) -> (r: Result<()>)
    requires
        state.wf(),
    ensures
        outcome(r, open_meter_error(state@, tx@)),
{
    let (owner, service_id, deposit) = match &tx.kind {
        Transaction::OpenMeter { owner, service_id, deposit } => (owner, service_id, *deposit),
        _ => {
            return Err(Error::InvalidTransaction(owned("Expected OpenMeter transaction")));
        },
    };
    if !str_eq(tx.signer.as_str(), owner.as_str()) {
        return Err(
            Error::InvalidTransaction(
                concat3("Signer ", tx.signer.as_str(), concat2(" does not match owner ", owner.as_str()).as_str()),
            ),
        );
    }
    check_account_nonce(state, tx.signer.as_str(), tx.nonce)?;
    let account = state.get_account(tx.signer.as_str()).unwrap();
    if deposit == 0 {
        return Err(Error::InvalidTransaction(owned("Deposit must be greater than zero")));
    }
    if !account.has_sufficient_balance(deposit) {
        return Err(
            Error::InvalidTransaction(
                text_num_text_num(
                    "Insufficient balance for deposit: have ",
                    account.balance(),
                    ", need ",
                    deposit,
                ),
            ),
        );
    }
    if state.has_active_meter(owner.as_str(), service_id.as_str()) {
        return Err(
            Error::InvalidTransaction(
                concat3("Active meter already exists for owner ", owner.as_str(), concat2(" and service ", service_id.as_str()).as_str()),
            ),
        );
    }
    Ok(())
}

/// Shared consumption rules: the meter exists and is active, units and price are positive;
/// yields the cost.
fn validate_consume_metering(state: &State, owner: &str, service_id: &str, units: u64, pricing: &Pricing) -> (r: Result<u64>)
    requires
        state.wf(),
    ensures
        same_outcome(r, metering_result(state@, owner@, service_id@, units, *pricing)),
{
    let meter = match state.get_meter(owner, service_id) {
        Some(m) => m,
        None => {
            return Err(
                Error::InvalidTransaction(
                    concat3("Meter does not exist for owner ", owner, concat2(" and service ", service_id).as_str()),
                ),
            );
        },
    };
    if !meter.is_active() {
        return Err(
            Error::InvalidTransaction(
                concat3("Meter is not active for owner ", owner, concat2(" and service ", service_id).as_str()),
            ),
        );
    }
    if units == 0 {
        return Err(Error::InvalidTransaction(owned("Units must be greater than zero")));
    }
    match pricing {
        Pricing::UnitPrice(price) => {
            if *price == 0 {
                return Err(Error::InvalidTransaction(owned("UnitPrice must be greater than zero")));
            }
        },
        Pricing::FixedCost(cost) => {
            if *cost == 0 {
                return Err(Error::InvalidTransaction(owned("FixedCost must be greater than zero")));
            }
        },
    }
    compute_cost(units, pricing)
}

/// Delegated consumption: payload v2, proof, reference time and nonce account present;
/// Live time rules; the proof parses, its issuer signed it, it is valid at the reference
/// time, its issuer is the owner and its audience the signer, its scope is this meter and
/// ability; not revoked; caveats respected; the owner's nonce and balance.
#[verifier::rlimit(50)]
fn validate_consume_delegation(
    state: &State,
    tx: &SignedTx,
    ctx: &ValidationContext,
    owner: &str,
    service_id: &str,
    units: u64,
    cost: u64,
) -> (r: Result<()>)
    requires
        state.wf(),
    ensures
        outcome(r, delegation_error(state@, tx@, *ctx, owner@, service_id@, units, cost)),
{
    if tx.effective_payload_version() != PAYLOAD_VERSION_V2 {
        return Err(Error::DelegatedConsumeRequiresV2);
    }
    let proof_bytes = match &tx.delegation_proof {
        Some(p) => p,
        None => {
            return Err(Error::DelegationProofMissing);
        },
    };
    let valid_at = match tx.valid_at {
        Some(v) => v,
        None => {
            return Err(Error::ValidAtMissing);
        },
    };
    match &tx.nonce_account {
        Some(a) => {
            if !str_eq(a.as_str(), owner) {
                return Err(Error::NonceAccountMissingOrInvalid);
            }
        },
        None => {
            return Err(Error::NonceAccountMissingOrInvalid);
        },
    }
    if ctx.mode == ValidationMode::Live {
        let now = match ctx.now {
            Some(n) => n,
            None => {
                return Err(Error::InvalidValidationContextLiveNowMissing);
            },
        };
        let max_age = match ctx.max_age {
            Some(m) => m,
            None => {
                return Err(Error::InvalidValidationContextLiveMaxAgeMissing);
            },
        };
        if valid_at > now {
            return Err(Error::ReferenceTimeFuture);
        }
        if now.saturating_sub(valid_at) > max_age {
            return Err(Error::ReferenceTimeTooOld);
        }
    }
    let signed_proof = match parse_signed_proof(proof_bytes.as_slice()) {
        Some(p) => p,
        None => {
            return Err(Error::DelegationExpiredOrNotYetValid);
        },
    };
    let proof = &signed_proof.claims;
    let issuer_pubkey = match principal_to_public_key(proof.issuer.as_str()) {
        Ok(k) => k,
        Err(e) => {
            return Err(
                match e {
                    Error::PrincipalBindingFailed(msg) => Error::PrincipalBindingFailed(
                        concat2("Issuer not a valid principal (0x or did:key): ", msg.as_str()),
                    ),
                    other => other,
                },
            );
        },
    };
    let message = delegation_claims_to_sign(proof);
    if signed_proof.signature.len() != 64 {
        return Err(Error::DelegationExpiredOrNotYetValid);
    }
    let sig_bytes = to_array64(&signed_proof.signature);
    let verifying_key = match public_key_from_bytes(&issuer_pubkey) {
        Ok(k) => k,
        Err(_) => {
            return Err(Error::DelegationExpiredOrNotYetValid);
        },
    };
    if verify_with_key(&verifying_key, message.as_slice(), &sig_bytes).is_err() {
        return Err(Error::DelegationExpiredOrNotYetValid);
    }
    if proof.iat > valid_at || valid_at >= proof.exp {
        return Err(Error::DelegationExpiredOrNotYetValid);
    }
    let issuer_addr = principal_to_chain_address(proof.issuer.as_str())?;
    let audience_addr = principal_to_chain_address(proof.audience.as_str())?;
    let owner_addr = principal_to_chain_address(owner)?;
    let signer_addr = principal_to_chain_address(tx.signer.as_str())?;
    if !str_eq(owner_addr.as_str(), issuer_addr.as_str()) {
        return Err(Error::DelegationIssuerOwnerMismatch);
    }
    if !str_eq(signer_addr.as_str(), audience_addr.as_str()) {
        return Err(Error::DelegationAudienceSignerMismatch);
    }
    if !str_eq(proof.service_id.as_str(), service_id) {
        return Err(Error::DelegationScopeMismatch);
    }
    if let Some(ab) = &proof.ability {
        if !str_eq(ab.as_str(), ability_consume_text()) {
            return Err(Error::DelegationScopeMismatch);
        }
    }
    let cap_id = capability_id(proof_bytes.as_slice());
    if state.is_capability_revoked(cap_id.as_str()) {
        return Err(Error::DelegationRevoked);
    }
    let (consumed_units, consumed_cost) = state.get_capability_consumption(cap_id.as_str());
    if let Some(limit) = proof.max_units {
        if consumed_units.saturating_add(units) > limit {
            return Err(Error::CapabilityLimitExceeded);
        }
    }
    if let Some(limit) = proof.max_cost {
        if consumed_cost.saturating_add(cost) > limit {
            return Err(Error::CapabilityLimitExceeded);
        }
    }
    check_account_nonce(state, owner, tx.nonce)?;
    let balance_acc = state.get_account(owner).unwrap();
    if !balance_acc.has_sufficient_balance(cost) {
        return Err(
            Error::InvalidTransaction(
                text_num_text_num(
                    "Insufficient balance for consumption: have ",
                    balance_acc.balance(),
                    ", need ",
                    cost,
                ),
            ),
        );
    }
    Ok(())
}

/// Owner-signed consumption: signer is the owner, any nonce account is the owner, the
/// owner's nonce and balance.
fn validate_consume_owner(state: &State, tx: &SignedTx, owner: &str, cost: u64) -> (r: Result<()>)
    requires
        state.wf(),
    ensures
        outcome(r, owner_consume_error(state@, tx@, owner@, cost)),
{
    if !str_eq(tx.signer.as_str(), owner) {
        return Err(
            Error::InvalidTransaction(
                concat3("Signer ", tx.signer.as_str(), concat2(" does not match owner ", owner).as_str()),
            ),
        );
    }
    if let Some(na) = &tx.nonce_account {
        if !str_eq(na.as_str(), owner) {
            return Err(Error::NonceAccountMissingOrInvalid);
        }
    }
    check_account_nonce(state, tx.signer.as_str(), tx.nonce)?;
    let account = state.get_account(tx.signer.as_str()).unwrap();
    if !account.has_sufficient_balance(cost) {
        return Err(
            Error::InvalidTransaction(
                text_num_text_num(
                    "Insufficient balance for consumption: have ",
                    account.balance(),
                    ", need ",
                    cost,
                ),
            ),
        );
    }
    Ok(())
}

/// Consume: the metering rules, then the owner-signed or the delegated rules; yields the cost.
pub fn validate_consume(state: &State, tx: &SignedTx, ctx: &ValidationContext) -> (r: Result<u64>)
    requires
        state.wf(),
    ensures
        same_outcome(r, consume_result(state@, tx@, *ctx)),
{
    let (owner, service_id, units, pricing) = match &tx.kind {
        Transaction::Consume { owner, service_id, units, pricing } => (owner, service_id, *units, pricing),
        _ => {
            return Err(Error::InvalidTransaction(owned("Expected Consume transaction")));
        },
    };
    let cost = validate_consume_metering(state, owner.as_str(), service_id.as_str(), units, pricing)?;
    let is_delegated = !str_eq(tx.signer.as_str(), owner.as_str()) || tx.delegation_proof.is_some();
    if is_delegated {
        validate_consume_delegation(state, tx, ctx, owner.as_str(), service_id.as_str(), units, cost)?;
    } else {
        validate_consume_owner(state, tx, owner.as_str(), cost)?;
    }
    Ok(cost)
}

/// CloseMeter: signed by the owner with its nonce, and the meter is active.
pub fn validate_close_meter(state: &State, tx: &SignedTx) -> (r: Result<()>)
    requires
        state.wf(),
    ensures
        outcome(r, close_meter_error(state@, tx@)),
{
    let (owner, service_id) = match &tx.kind {
        Transaction::CloseMeter { owner, service_id } => (owner, service_id),
        _ => {
            return Err(Error::InvalidTransaction(owned("Expected CloseMeter transaction")));
        },
    };
    if !str_eq(tx.signer.as_str(), owner.as_str()) {
        return Err(
            Error::InvalidTransaction(
                concat3("Signer ", tx.signer.as_str(), concat2(" does not match owner ", owner.as_str()).as_str()),
            ),
        );
    }
    check_account_nonce(state, tx.signer.as_str(), tx.nonce)?;
    let meter = match state.get_meter(owner.as_str(), service_id.as_str()) {
        Some(m) => m,
        None => {
            return Err(
                Error::InvalidTransaction(
                    concat3("Meter does not exist for owner ", owner.as_str(), concat2(" and service ", service_id.as_str()).as_str()),
                ),
            );
        },
    };
    if !meter.is_active() {
        return Err(
            Error::InvalidTransaction(
                concat3("Meter is not active for owner ", owner.as_str(), concat2(" and service ", service_id.as_str()).as_str()),
            ),
        );
    }
    Ok(())
}

/// RevokeDelegation: signed by the owner with its nonce.
pub fn validate_revoke_delegation(state: &State, tx: &SignedTx) -> (r: Result<()>)
    requires
        state.wf(),
    ensures
        outcome(r, revoke_error(state@, tx@)),
{
    let owner = match &tx.kind {
        Transaction::RevokeDelegation { owner, .. } => owner,
        _ => {
            return Err(Error::InvalidTransaction(owned("Expected RevokeDelegation transaction")));
        },
    };
    if !str_eq(tx.signer.as_str(), owner.as_str()) {
        return Err(
            Error::InvalidTransaction(
                concat3("Signer ", tx.signer.as_str(), concat2(" does not match owner ", owner.as_str()).as_str()),
            ),
        );
    }
    check_account_nonce(state, tx.signer.as_str(), tx.nonce)
}

fn validate_propose_settlement(state: &State, tx: &SignedTx, authorized_minters: Option<&NameSet>) -> (r: Result<()>)
    requires
        state.wf(),
        minters_wf(authorized_minters),
    ensures
        outcome(r, propose_error(state@, tx@, minters_view(authorized_minters))),
{
    match &tx.kind {
        Transaction::ProposeSettlement {
            owner,
            service_id,
            window_id,
            gross_spent,
            operator_share,
            protocol_fee,
            reserve_locked,
            evidence_hash,
            ..
        } => {
            check_authority(state, tx, authorized_minters, "ProposeSettlement")?;
            let id = SettlementId::new(owner.clone(), service_id.clone(), window_id.clone());
            if state.get_settlement(&id).is_some() {
                return Err(Error::DuplicateSettlementWindow);
            }
            if *gross_spent != operator_share.saturating_add(*protocol_fee).saturating_add(
                *reserve_locked,
            ) {
                return Err(Error::SettlementConservationViolation);
            }
            if evidence_hash.as_str().is_empty() {
                return Err(
                    Error::InvalidTransaction(owned("evidence_hash required for ProposeSettlement")),
                );
            }
            Ok(())
        },
        _ => Err(Error::InvalidTransaction(owned("Expected ProposeSettlement transaction"))),
    }
}

fn validate_finalize_settlement(state: &State, tx: &SignedTx, authorized_minters: Option<&NameSet>) -> (r: Result<()>)
    requires
        state.wf(),
        minters_wf(authorized_minters),
    ensures
        outcome(r, finalize_error(state@, tx@, minters_view(authorized_minters))),
{
    match &tx.kind {
        Transaction::FinalizeSettlement { owner, service_id, window_id } => {
            check_authority(state, tx, authorized_minters, "FinalizeSettlement")?;
            let id = SettlementId::new(owner.clone(), service_id.clone(), window_id.clone());
            let s = match state.get_settlement(&id) {
                Some(s) => s,
                None => {
                    return Err(Error::SettlementNotFound);
                },
            };
            if s.status != SettlementStatus::Proposed {
                return Err(Error::SettlementNotProposed);
            }
            Ok(())
        },
        _ => Err(Error::InvalidTransaction(owned("Expected FinalizeSettlement transaction"))),
    }
}

fn validate_submit_claim(state: &State, tx: &SignedTx) -> (r: Result<()>)
    requires
        state.wf(),
    ensures
        outcome(r, submit_claim_error(state@, tx@)),
{
    match &tx.kind {
        Transaction::SubmitClaim { operator, owner, service_id, window_id, claim_amount } => {
            if !str_eq(tx.signer.as_str(), operator.as_str()) {
                return Err(
                    Error::InvalidTransaction(
                        concat3("SubmitClaim: signer ", tx.signer.as_str(), concat2(" must equal operator ", operator.as_str()).as_str()),
                    ),
                );
            }
            let expected_nonce = match state.get_account(operator.as_str()) {
                Some(a) => a.nonce(),
                None => 0,
            };
            if tx.nonce != expected_nonce {
                return Err(
                    Error::InvalidTransaction(
                        concat3(
                            "SubmitClaim: Nonce mismatch for operator ",
                            operator.as_str(),
                            text_num_text_num(": expected ", expected_nonce, ", got ", tx.nonce).as_str(),
                        ),
                    ),
                );
            }
            let sid = SettlementId::new(owner.clone(), service_id.clone(), window_id.clone());
            let s = match state.get_settlement(&sid) {
                Some(s) => s,
                None => {
                    return Err(Error::SettlementNotFound);
                },
            };
            if !s.is_finalized() {
                return Err(Error::SettlementNotFinalized);
            }
            let payable = s.payable();
            if *claim_amount > payable {
                return Err(Error::ClaimAmountExceedsPayable);
            }
            if *claim_amount == 0 {
                return Err(Error::InvalidTransaction(owned("claim_amount must be positive")));
            }
            let cid = ClaimId::new(operator.clone(), &sid);
            if state.get_claim(&cid).is_some() {
                return Err(
                    Error::InvalidTransaction(owned("Claim already exists for this operator/settlement")),
                );
            }
            Ok(())
        },
        _ => Err(Error::InvalidTransaction(owned("Expected SubmitClaim transaction"))),
    }
}

fn validate_pay_claim(state: &State, tx: &SignedTx, authorized_minters: Option<&NameSet>) -> (r: Result<()>)
    requires
        state.wf(),
        minters_wf(authorized_minters),
    ensures
        outcome(r, pay_claim_error(state@, tx@, minters_view(authorized_minters))),
        payout_frozen(state@, tx@, minters_view(authorized_minters)) ==> (r matches Err(
            Error::InvalidTransaction(msg),
        ) && msg@ == "Payout frozen by dispute"@),
{
    match &tx.kind {
        Transaction::PayClaim { operator, owner, service_id, window_id } => {
            check_authority(state, tx, authorized_minters, "PayClaim")?;
            let sid = SettlementId::new(owner.clone(), service_id.clone(), window_id.clone());
            let cid = ClaimId::new(operator.clone(), &sid);
            let c = match state.get_claim(&cid) {
                Some(c) => c,
                None => {
                    return Err(Error::ClaimNotPending);
                },
            };
            if !c.is_pending() {
                return Err(Error::ClaimNotPending);
            }
            let s = match state.get_settlement(&sid) {
                Some(s) => s,
                None => {
                    return Err(Error::SettlementNotFound);
                },
            };
            if s.is_disputed() {
                return Err(Error::InvalidTransaction(owned("Payout frozen by dispute")));
            }
            if c.claim_amount > s.payable() {
                return Err(Error::ClaimAmountExceedsPayable);
            }
            Ok(())
        },
        _ => Err(Error::InvalidTransaction(owned("Expected PayClaim transaction"))),
    }
}

fn validate_open_dispute(
    state: &State,
    tx: &SignedTx,
    ctx: &ValidationContext,
    authorized_minters: Option<&NameSet>,
) -> (r: Result<()>)
    requires
        state.wf(),
        minters_wf(authorized_minters),
    ensures
        outcome(r, open_dispute_error(state@, tx@, *ctx, minters_view(authorized_minters))),
{
    match &tx.kind {
        Transaction::OpenDispute { owner, service_id, window_id, .. } => {
            check_authority(state, tx, authorized_minters, "OpenDispute")?;
            let sid = SettlementId::new(owner.clone(), service_id.clone(), window_id.clone());
            let s = match state.get_settlement(&sid) {
                Some(s) => s,
                None => {
                    return Err(Error::SettlementNotFound);
                },
            };
            if !s.is_finalized() {
                return Err(Error::SettlementNotFinalized);
            }
            let did = DisputeId::new(&sid);
            if let Some(d) = state.get_dispute(&did) {
                if d.is_open() {
                    return Err(Error::DisputeAlreadyOpen);
                }
            }
            if let (Some(now), Some(finalized_at), Some(window)) = (
                ctx.now,
                s.finalized_at,
                s.dispute_window_secs,
            ) {
                if now > finalized_at.saturating_add(window) {
                    return Err(Error::InvalidTransaction(owned("Dispute window has closed")));
                }
            }
            Ok(())
        },
        _ => Err(Error::InvalidTransaction(owned("Expected OpenDispute transaction"))),
    }
}

fn validate_resolve_dispute(state: &State, tx: &SignedTx, authorized_minters: Option<&NameSet>) -> (r: Result<()>)
    requires
        state.wf(),
        minters_wf(authorized_minters),
    ensures
        outcome(r, resolve_dispute_error(state@, tx@, minters_view(authorized_minters))),
{
    match &tx.kind {
        Transaction::ResolveDispute { owner, service_id, window_id, replay_hash, .. } => {
            check_authority(state, tx, authorized_minters, "ResolveDispute")?;
            let sid = SettlementId::new(owner.clone(), service_id.clone(), window_id.clone());
            if state.get_settlement(&sid).is_none() {
                return Err(Error::SettlementNotFound);
            }
            let did = DisputeId::new(&sid);
            let d = match state.get_dispute(&did) {
                Some(d) => d,
                None => {
                    return Err(Error::DisputeNotFound);
                },
            };
            if !d.is_open() {
                return Err(Error::DisputeNotOpen);
            }
            if replay_hash.as_str().is_empty() {
                return Err(Error::InvalidEvidenceBundle);
            }
            Ok(())
        },
        _ => Err(Error::InvalidTransaction(owned("Expected ResolveDispute transaction"))),
    }
}

fn validate_publish_policy_version(
    state: &State,
    tx: &SignedTx,
    ctx: &ValidationContext,
    authorized_minters: Option<&NameSet>,
) -> (r: Result<()>)
    requires
        state.wf(),
        minters_wf(authorized_minters),
    ensures
        outcome(r, publish_error(state@, tx@, *ctx, minters_view(authorized_minters))),
{
    match &tx.kind {
        Transaction::PublishPolicyVersion { scope, version, effective_from_tx_id, config } => {
            check_authority(state, tx, authorized_minters, "PublishPolicyVersion")?;
            if !config.validate() {
                return Err(Error::InvalidPolicyParameters);
            }
            if let Some(next) = ctx.next_tx_id {
                if *effective_from_tx_id < next {
                    return Err(Error::RetroactivePolicyForbidden);
                }
            }
            let scope_key = scope.scope_key();
            if let Some(latest) = state.latest_policy_version_for_scope(scope_key.as_str()) {
                if *version <= latest {
                    return Err(Error::PolicyVersionConflict);
                }
            }
            Ok(())
        },
        _ => Err(Error::InvalidTransaction(owned("Expected PublishPolicyVersion transaction"))),
    }
}

fn validate_supersede_policy_version(state: &State, tx: &SignedTx, authorized_minters: Option<&NameSet>) -> (r: Result<()>)
    requires
        state.wf(),
        minters_wf(authorized_minters),
    ensures
        outcome(r, supersede_error(state@, tx@, minters_view(authorized_minters))),
{
    match &tx.kind {
        Transaction::SupersedePolicyVersion { scope_key, version } => {
            check_authority(state, tx, authorized_minters, "SupersedePolicyVersion")?;
            let id = PolicyVersionId { scope_key: scope_key.clone(), version: *version };
            proof {
                state.policy_versions.lemma_view();
            }
            if state.get_policy_version(&id).is_none() {
                return Err(Error::PolicyNotFound);
            }
            Ok(())
        },
        _ => Err(Error::InvalidTransaction(owned("Expected SupersedePolicyVersion transaction"))),
    }
}

/// Validate any transaction: the cost of a Consume, nothing for other commands. Without a set
/// of authorized signers (replay), authority checks are skipped.
pub fn validate(
    state: &State,
    tx: &SignedTx,
    ctx: &ValidationContext,
    authorized_minters: Option<&NameSet>,
) -> (r: Result<Option<u64>>)
    requires
        state.wf(),
        minters_wf(authorized_minters),
    ensures
        same_outcome(r, validation_result(state@, tx@, *ctx, minters_view(authorized_minters))),
        mint_unauthorized(tx@, minters_view(authorized_minters)) ==> (r matches Err(
            Error::InvalidTransaction(msg),
        ) && msg@ == unauthorized_mint_text(tx.signer@)),
        payout_frozen(state@, tx@, minters_view(authorized_minters)) ==> (r matches Err(
            Error::InvalidTransaction(msg),
        ) && msg@ == "Payout frozen by dispute"@),
{
    match &tx.kind {
        Transaction::Mint { .. } => {
            validate_mint(state, tx, authorized_minters)?;
            Ok(None)
        },
        Transaction::OpenMeter { .. } => {
            validate_open_meter(state, tx)?;
            Ok(None)
        },
        Transaction::Consume { .. } => {
            let cost = validate_consume(state, tx, ctx)?;
            Ok(Some(cost))
        },
        Transaction::CloseMeter { .. } => {
            validate_close_meter(state, tx)?;
            Ok(None)
        },
        Transaction::RevokeDelegation { .. } => {
            validate_revoke_delegation(state, tx)?;
            Ok(None)
        },
        Transaction::ProposeSettlement { .. } => {
            validate_propose_settlement(state, tx, authorized_minters)?;
            Ok(None)
        },
        Transaction::FinalizeSettlement { .. } => {
            validate_finalize_settlement(state, tx, authorized_minters)?;
            Ok(None)
        },
        Transaction::SubmitClaim { .. } => {
            validate_submit_claim(state, tx)?;
            Ok(None)
        },
        Transaction::PayClaim { .. } => {
            validate_pay_claim(state, tx, authorized_minters)?;
            Ok(None)
        },
        Transaction::OpenDispute { .. } => {
            validate_open_dispute(state, tx, ctx, authorized_minters)?;
            Ok(None)
        },
        Transaction::ResolveDispute { .. } => {
            validate_resolve_dispute(state, tx, authorized_minters)?;
            Ok(None)
        },
        Transaction::PublishPolicyVersion { .. } => {
            validate_publish_policy_version(state, tx, ctx, authorized_minters)?;
            Ok(None)
        },
        Transaction::SupersedePolicyVersion { .. } => {
            validate_supersede_policy_version(state, tx, authorized_minters)?;
            Ok(None)
        },
    }
}

} // verus!

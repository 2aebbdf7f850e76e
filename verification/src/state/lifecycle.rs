//! The settlement lifecycle, as every accepted transaction keeps it: a settlement window is
//! proposed once, finalized only from Proposed, claimed only once final, each claim paid at
//! most once, and a superseded policy version stays superseded.
use crate::error::ErrorKind;
use crate::state::account::sat_add;
use crate::state::account_or_new;
use crate::state::apply::apply_result;
use crate::state::policy::{policy_key_of, PolicyVersionStatus};
use crate::state::settlement::{settlement_key_of, ClaimStatus, SettlementStatus};
use crate::state::StateView;
use crate::table::{unique_keys, pairs_to_map};
use crate::text::colon;
use crate::tx::transaction::{SignedTxView, TransactionView};
use crate::tx::validation::ValidationContext;
use vstd::prelude::*;

verus! {

/// The signer may act as an authority: no set is given, or it is listed.
pub open spec fn may_act(minters: Option<Set<Seq<char>>>, signer: Seq<char>) -> bool {
    minters matches Some(m) ==> m.contains(signer)
}

/// Claims are paid at most once: an accepted PayClaim names a claim that is Pending before
/// it and Paid after it, adds the claimed amount to the settlement's payouts and credits it
/// to the operator (saturating); from an authorized signer with the right nonce, a claim that is
/// missing, Paid or Rejected is refused with ClaimNotPending.
pub proof fn law_claim_paid_at_most_once(
    s: StateView,
    t: SignedTxView,
    ctx: ValidationContext,
    minters: Option<Set<Seq<char>>>,
)
    requires
        t.kind is PayClaim,
    ensures
        match t.kind {
            TransactionView::PayClaim { operator, owner, service_id, window_id } => {
                let ck = operator + colon() + settlement_key_of(owner, service_id, window_id);
                let r = apply_result(s, t, ctx, minters);
                &&& r is Ok ==> s.claims.contains_key(ck) && s.claims[ck].status == ClaimStatus::Pending
                    && r->Ok_0.claims.contains_key(ck) && r->Ok_0.claims[ck].status == ClaimStatus::Paid
                    && r->Ok_0.settlements[settlement_key_of(owner, service_id, window_id)].total_paid
                    == s.settlements[settlement_key_of(owner, service_id, window_id)].total_paid
                    + s.claims[ck].claim_amount && r->Ok_0.accounts[operator].balance == sat_add(
                    account_or_new(s, operator).balance,
                    s.claims[ck].claim_amount,
                )
                &&& may_act(minters, t.signer) && t.nonce == account_or_new(s, t.signer).nonce && !(
                s.claims.contains_key(ck) && s.claims[ck].status == ClaimStatus::Pending) ==> r
                    == Err::<StateView, ErrorKind>(ErrorKind::ClaimNotPending)
            },
            _ => true,
        },
{
}

/// Only a proposed settlement is finalized: an accepted FinalizeSettlement finds its
/// settlement Proposed and leaves it Finalized; from an authorized signer with the right
/// nonce, a settlement in any other status is refused with SettlementNotProposed.
pub proof fn law_finalize_only_proposed(
    s: StateView,
    t: SignedTxView,
    ctx: ValidationContext,
    minters: Option<Set<Seq<char>>>,
)
    requires
        t.kind is FinalizeSettlement,
    ensures
        match t.kind {
            TransactionView::FinalizeSettlement { owner, service_id, window_id } => {
                let k = settlement_key_of(owner, service_id, window_id);
                let r = apply_result(s, t, ctx, minters);
                &&& r is Ok ==> s.settlements.contains_key(k) && s.settlements[k].status == SettlementStatus::Proposed
                    && r->Ok_0.settlements[k].status == SettlementStatus::Finalized
                &&& may_act(minters, t.signer) && t.nonce == account_or_new(s, t.signer).nonce
                    && s.settlements.contains_key(k) && s.settlements[k].status != SettlementStatus::Proposed
                    ==> r == Err::<StateView, ErrorKind>(ErrorKind::SettlementNotProposed)
            },
            _ => true,
        },
{
}

/// A settlement window is proposed once: an accepted ProposeSettlement finds no settlement
/// under its key; from an authorized signer with the right nonce, an existing settlement is
/// refused with DuplicateSettlementWindow and so never replaced.
pub proof fn law_settlement_window_proposed_once(
    s: StateView,
    t: SignedTxView,
    ctx: ValidationContext,
    minters: Option<Set<Seq<char>>>,
)
    requires
        t.kind is ProposeSettlement,
    ensures
        match t.kind {
            TransactionView::ProposeSettlement { owner, service_id, window_id, .. } => {
                let k = settlement_key_of(owner, service_id, window_id);
                let r = apply_result(s, t, ctx, minters);
                &&& r is Ok ==> !s.settlements.contains_key(k) && r->Ok_0.settlements.contains_key(k)
                    && r->Ok_0.settlements[k].status == SettlementStatus::Proposed
                    && r->Ok_0.settlements[k].total_paid == 0
                &&& may_act(minters, t.signer) && t.nonce == account_or_new(s, t.signer).nonce
                    && s.settlements.contains_key(k) ==> r == Err::<StateView, ErrorKind>(
                    ErrorKind::DuplicateSettlementWindow,
                )
            },
            _ => true,
        },
{
}

/// Claims only on final settlements: an accepted SubmitClaim finds its settlement Finalized
/// or Claimed and records a Pending claim; signed by the operator with the right nonce, a
/// claim on a settlement that is Proposed, Disputed or Resolved is refused with
/// SettlementNotFinalized.
pub proof fn law_claims_only_on_final_settlements(
    s: StateView,
    t: SignedTxView,
    ctx: ValidationContext,
    minters: Option<Set<Seq<char>>>,
)
    requires
        t.kind is SubmitClaim,
    ensures
        match t.kind {
            TransactionView::SubmitClaim { operator, owner, service_id, window_id, .. } => {
                let k = settlement_key_of(owner, service_id, window_id);
                let ck = operator + colon() + k;
                let r = apply_result(s, t, ctx, minters);
                &&& r is Ok ==> s.settlements.contains_key(k) && (s.settlements[k].status
                    == SettlementStatus::Finalized || s.settlements[k].status == SettlementStatus::Claimed)
                    && r->Ok_0.claims.contains_key(ck) && r->Ok_0.claims[ck].status == ClaimStatus::Pending
                &&& t.signer == operator && t.nonce == account_or_new(s, operator).nonce
                    && s.settlements.contains_key(k) && s.settlements[k].status != SettlementStatus::Finalized
                    && s.settlements[k].status != SettlementStatus::Claimed ==> r == Err::<
                    StateView,
                    ErrorKind,
                >(ErrorKind::SettlementNotFinalized)
            },
            _ => true,
        },
{
}

/// Superseding retires a version: after an accepted SupersedePolicyVersion the version
/// stored under `<scope_key>:<version>` is there and every entry under that key is
/// Superseded, so it is no longer a published candidate.
pub proof fn law_superseded_version_retired(
    s: StateView,
    t: SignedTxView,
    ctx: ValidationContext,
    minters: Option<Set<Seq<char>>>,
)
    requires
        t.kind is SupersedePolicyVersion,
        unique_keys(s.policy_versions),
        apply_result(s, t, ctx, minters) is Ok,
    ensures
        match t.kind {
            TransactionView::SupersedePolicyVersion { scope_key, version } => {
                let key = policy_key_of(scope_key, version);
                let pv = apply_result(s, t, ctx, minters)->Ok_0.policy_versions;
                &&& exists|i: int| 0 <= i < pv.len() && pv[i].0 == key
                &&& forall|i: int| 0 <= i < pv.len() && #[trigger] pv[i].0 == key ==> pv[i].1.status
                    == PolicyVersionStatus::Superseded
            },
            _ => true,
        },
{
    if let TransactionView::SupersedePolicyVersion { scope_key, version } = t.kind {
    let key = policy_key_of(scope_key, version);
    let old_pv = s.policy_versions;
    assert(pairs_to_map(old_pv).contains_key(key));
    assert(exists|i: int| 0 <= i < old_pv.len() && old_pv[i].0 == key);
    let j = crate::table::key_index(old_pv, key);
    let pv = apply_result(s, t, ctx, minters)->Ok_0.policy_versions;
    assert(pv.len() == old_pv.len());
    assert(pv[j].0 == key);
    assert forall|i: int| 0 <= i < pv.len() && #[trigger] pv[i].0 == key implies pv[i].1.status
        == PolicyVersionStatus::Superseded by {
        if i != j {
            assert(pv[i] == old_pv[i]);
            assert(old_pv[j].0 == key);
        }
    }
    }
}

} // verus!

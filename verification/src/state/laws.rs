//! What every accepted transaction keeps: nonces, value, payout bounds, dispute freezes,
//! delegation caveats and policy versions.
use crate::error::ErrorKind;
use crate::evidence::evidence_hash_of;
use crate::state::account::{sat_add, sat_sub};
use crate::state::apply::{apply_result, apply_safe};
use crate::state::settlement::{settlement_key_of, SettlementStatus};
use crate::state::{account_or_new, consumption_of, latest_version, StateView};
use crate::state::policy::scope_key_of;
use crate::tx::delegation::read_signed_proof_spec;
use crate::tx::transaction::{SignedTxView, TransactionView};
use crate::tx::validation::{validation_result, ValidationContext, ValidationMode};
use vstd::prelude::*;

verus! {

/// The account whose nonce a transaction uses: the owner of a Consume (its nonce account),
/// otherwise the signer.
pub open spec fn nonce_holder(t: SignedTxView) -> Seq<char> {
    match t.kind {
        TransactionView::Consume { owner, .. } => owner,
        _ => t.signer,
    }
}

/// Nonces: every accepted transaction but Mint carries the nonce of its nonce account and
/// advances it by exactly one; a Mint advances none.
#[verifier::rlimit(50)]
#[verifier::spinoff_prover]
pub proof fn law_accepted_transaction_advances_nonce(
    s: StateView,
    t: SignedTxView,
    ctx: ValidationContext,
    minters: Option<Set<Seq<char>>>,
)
    requires
        apply_safe(s, t, ctx),
        apply_result(s, t, ctx, minters) is Ok,
    ensures
        !(t.kind is Mint) ==> account_or_new(s, nonce_holder(t)).nonce == t.nonce
            && account_or_new(apply_result(s, t, ctx, minters)->Ok_0, nonce_holder(t)).nonce
            == t.nonce + 1,
        t.kind is Mint ==> forall|a: Seq<char>|
            account_or_new(apply_result(s, t, ctx, minters)->Ok_0, a).nonce == #[trigger] account_or_new(
                s,
                a,
            ).nonce,
{
    let ns = apply_result(s, t, ctx, minters)->Ok_0;
    match t.kind {
        TransactionView::Mint { .. } => {
            assert forall|a: Seq<char>| account_or_new(ns, a).nonce == #[trigger] account_or_new(s, a).nonce by {
            }
        },
        TransactionView::OpenMeter { .. } => {},
        TransactionView::Consume { .. } => {},
        TransactionView::CloseMeter { .. } => {},
        TransactionView::RevokeDelegation { .. } => {},
        TransactionView::ProposeSettlement { .. } => {},
        TransactionView::FinalizeSettlement { .. } => {},
        TransactionView::SubmitClaim { .. } => {},
        TransactionView::PayClaim { .. } => {},
        TransactionView::OpenDispute { .. } => {},
        TransactionView::ResolveDispute { .. } => {},
        TransactionView::PublishPolicyVersion { .. } => {},
        TransactionView::SupersedePolicyVersion { .. } => {},
    }
}

/// Dispute freeze: while a settlement is disputed, no claim on it is paid.
pub proof fn law_disputed_settlement_pays_nothing(
    s: StateView,
    t: SignedTxView,
    ctx: ValidationContext,
    minters: Option<Set<Seq<char>>>,
)
    requires
        t.kind matches TransactionView::PayClaim { owner, service_id, window_id, .. } && s.settlements.contains_key(
            settlement_key_of(owner, service_id, window_id),
        ) && s.settlements[settlement_key_of(owner, service_id, window_id)].status
            == SettlementStatus::Disputed,
    ensures
        apply_result(s, t, ctx, minters) is Err,
{
}

/// Every settlement has paid out at most its operator share.
pub open spec fn payouts_bounded(s: StateView) -> bool {
    forall|k: Seq<char>| #[trigger]
        s.settlements.contains_key(k) ==> s.settlements[k].total_paid
            <= s.settlements[k].operator_share
}

/// Payout bound: no accepted transaction makes a settlement pay out more than its operator
/// share.
pub proof fn law_payouts_never_exceed_operator_share(
    s: StateView,
    t: SignedTxView,
    ctx: ValidationContext,
    minters: Option<Set<Seq<char>>>,
)
    requires
        payouts_bounded(s),
        apply_result(s, t, ctx, minters) is Ok,
    ensures
        payouts_bounded(apply_result(s, t, ctx, minters)->Ok_0),
{
}

/// Settlement conservation: an accepted proposal splits its gross spend exactly into operator
/// share, protocol fee and reserve.
pub proof fn law_accepted_settlement_conserves_gross(
    s: StateView,
    t: SignedTxView,
    ctx: ValidationContext,
    minters: Option<Set<Seq<char>>>,
)
    requires
        t.kind is ProposeSettlement,
        apply_result(s, t, ctx, minters) is Ok,
    ensures
        t.kind matches TransactionView::ProposeSettlement {
            gross_spent,
            operator_share,
            protocol_fee,
            reserve_locked,
            ..
        } && gross_spent == sat_add(sat_add(operator_share, protocol_fee), reserve_locked),
{
}

/// Policy versions only grow: an accepted publication has a version above every version
/// already recorded for its scope.
pub proof fn law_published_policy_version_is_newest(
    s: StateView,
    t: SignedTxView,
    ctx: ValidationContext,
    minters: Option<Set<Seq<char>>>,
)
    requires
        t.kind is PublishPolicyVersion,
        apply_result(s, t, ctx, minters) is Ok,
    ensures
        t.kind matches TransactionView::PublishPolicyVersion { scope, version, .. } && (latest_version(
            s.policy_versions,
            scope_key_of(scope),
        ) matches Some(l) ==> l < version),
{
}

/// Revocation: a consumption under a revoked capability is rejected.
pub proof fn law_revoked_capability_cannot_consume(
    s: StateView,
    t: SignedTxView,
    ctx: ValidationContext,
    minters: Option<Set<Seq<char>>>,
)
    requires
        t.kind is Consume,
        t.delegation_proof matches Some(p) && s.revoked_capability_ids.contains(evidence_hash_of(p)),
    ensures
        apply_result(s, t, ctx, minters) is Err,
{
}

/// Caveats: after an accepted delegated consumption, the usage counted against the
/// capability stays within the proof's unit and cost limits.
pub proof fn law_delegated_consumption_within_caveats(
    s: StateView,
    t: SignedTxView,
    ctx: ValidationContext,
    minters: Option<Set<Seq<char>>>,
)
    requires
        t.kind is Consume,
        apply_safe(s, t, ctx),
        apply_result(s, t, ctx, minters) is Ok,
        t.delegation_proof is Some,
    ensures
        ({
            let p = t.delegation_proof->0;
            let ns = apply_result(s, t, ctx, minters)->Ok_0;
            let parsed = read_signed_proof_spec(p)->0;
            let claims = parsed.0;
            &&& read_signed_proof_spec(p) is Some
            &&& claims.max_units matches Some(l) ==> consumption_of(ns, evidence_hash_of(p)).0 <= l
            &&& claims.max_cost matches Some(l) ==> consumption_of(ns, evidence_hash_of(p)).1 <= l
        }),
{
}

/// Value: an accepted OpenMeter moves the deposit from the owner's balance into the meter's
/// lock, keeping the meter's totals; a CloseMeter moves the lock back; a Consume moves the
/// cost from the balance into the meter's spend. Usage totals never decrease.
pub proof fn law_metering_moves_value(
    s: StateView,
    t: SignedTxView,
    ctx: ValidationContext,
    minters: Option<Set<Seq<char>>>,
)
    requires
        apply_safe(s, t, ctx),
        apply_result(s, t, ctx, minters) is Ok,
    ensures
        ({
            let ns = apply_result(s, t, ctx, minters)->Ok_0;
            match t.kind {
                TransactionView::OpenMeter { owner, service_id, deposit } => {
                    &&& ns.accounts[owner].balance == s.accounts[owner].balance - deposit
                    &&& ns.meters[(owner, service_id)].locked_deposit == deposit
                    &&& ns.meters[(owner, service_id)].active
                    &&& s.meters.contains_key((owner, service_id)) ==> ns.meters[(
                        owner,
                        service_id,
                    )].total_spent == s.meters[(owner, service_id)].total_spent
                        && ns.meters[(owner, service_id)].total_units == s.meters[(
                        owner,
                        service_id,
                    )].total_units
                },
                TransactionView::CloseMeter { owner, service_id } => {
                    &&& ns.accounts[owner].balance == sat_add(
                        s.accounts[owner].balance,
                        s.meters[(owner, service_id)].locked_deposit,
                    )
                    &&& ns.meters[(owner, service_id)].locked_deposit == 0
                    &&& !ns.meters[(owner, service_id)].active
                },
                TransactionView::Consume { owner, service_id, units, .. } => {
                    let cost = validation_result(s, t, ctx, minters)->Ok_0->0;
                    &&& ns.accounts[owner].balance == s.accounts[owner].balance - cost
                    &&& ns.meters[(owner, service_id)].total_spent == sat_add(
                        s.meters[(owner, service_id)].total_spent,
                        cost,
                    )
                    &&& ns.meters[(owner, service_id)].total_units >= s.meters[(
                        owner,
                        service_id,
                    )].total_units
                    &&& ns.meters[(owner, service_id)].locked_deposit == s.meters[(
                        owner,
                        service_id,
                    )].locked_deposit
                },
                _ => true,
            }
        }),
{
}

/// Replay does not read the clock: a consumption is judged the same under any two replay
/// contexts, whatever wall-clock time or age limit they carry.
pub proof fn law_replay_consumption_ignores_clock(
    s: StateView,
    t: SignedTxView,
    c1: ValidationContext,
    c2: ValidationContext,
    minters: Option<Set<Seq<char>>>,
)
    requires
        t.kind is Consume,
        c1.mode == ValidationMode::Replay,
        c2.mode == ValidationMode::Replay,
    ensures
        validation_result(s, t, c1, minters) == validation_result(s, t, c2, minters),
{
}

/// An accepted delegated consumption carries a proof that reads back as claims whose validity
/// window holds its reference time: `iat <= valid_at < exp`.
pub proof fn law_accepted_delegation_within_validity(
    s: StateView,
    t: SignedTxView,
    ctx: ValidationContext,
    minters: Option<Set<Seq<char>>>,
)
    requires
        t.kind matches TransactionView::Consume { owner, .. } && (t.signer != owner
            || t.delegation_proof is Some),
        validation_result(s, t, ctx, minters) is Ok,
    ensures
        t.delegation_proof is Some && t.valid_at is Some,
        read_signed_proof_spec(t.delegation_proof->0) matches Some((claims, _)) && claims.iat
            <= t.valid_at->0 && t.valid_at->0 < claims.exp,
{
}

} // verus!

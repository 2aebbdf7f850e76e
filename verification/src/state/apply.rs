//! Applying transactions: validation, then the state transition, with optional hooks.
use crate::error::{Error, ErrorKind, Result};
use crate::evidence::{
    bundle_shape_error, evidence_hash_of, EvidenceBundle, EvidenceBundleView, ReplaySummary,
    CURRENT_EVIDENCE_SCHEMA_VERSION, REPLAY_PROTOCOL_VERSION,
};
use crate::nameset::NameSet;
use crate::state::account::{sat_add, Account};
use crate::state::hook::{ApplyHook, NoOpHook};
use crate::state::meter::{new_meter_view, Meter, MeterView};
use crate::state::policy::{
    bps_of, policy_key_of, reserve_fits, reserve_of, scope_key_of, PolicyConfig, PolicyScope,
    PolicyVersion, PolicyVersionId, PolicyVersionStatus, PolicyVersionView,
    POLICY_SCHEMA_VERSION,
};
use crate::state::settlement::{
    add_paid_view, payable_of, settlement_key_of, Claim, ClaimId, ClaimStatus, ClaimView,
    Dispute, DisputeId, DisputeStatus, DisputeView, ResolutionAudit, ResolutionAuditView,
    Settlement, SettlementId, SettlementStatus, SettlementView,
};
use crate::state::{
    account_or_new, consumption_of, resolve_policy_view, CapabilityConsumption, MeterKey, State,
    StateView,
};
use crate::table::{pairs_insert, pairs_to_map, Duplicate};
use crate::text::{colon, owned};
use crate::tx::delegation::capability_id;
use crate::tx::encode::enc_summary;
use crate::tx::transaction::{DisputeVerdict, SignedTx, SignedTxView, Transaction, TransactionView};
use crate::tx::validation::{
    minters_view, minters_wf, mint_unauthorized, payout_frozen, unauthorized_mint_text, validate,
    validation_result, ValidationContext,
};
use vstd::prelude::*;

verus! {

broadcast use vstd::string::group_string_axioms;

// ---------------------------------------------------------------------------------------
// The transitions, on abstract states.
// ---------------------------------------------------------------------------------------

/// `s` with the account at `a` replaced.
pub open spec fn with_account(s: StateView, a: Seq<char>, acct: Account) -> StateView {
    StateView { accounts: s.accounts.insert(a, acct), ..s }
}

/// The account at `a` (created when absent) with its nonce advanced by one.
pub open spec fn bump_nonce(s: StateView, a: Seq<char>) -> StateView {
    let acct = account_or_new(s, a);
    with_account(s, a, Account { balance: acct.balance, nonce: (acct.nonce + 1) as u64 })
}

/// The account at `a` (created when absent) credited with `amount`, saturating.
pub open spec fn credit(s: StateView, a: Seq<char>, amount: u64) -> StateView {
    let acct = account_or_new(s, a);
    with_account(s, a, Account { balance: sat_add(acct.balance, amount), nonce: acct.nonce })
}

/// The account at `a` debited by `amount` (which it covers).
pub open spec fn debit(s: StateView, a: Seq<char>, amount: u64) -> StateView {
    let acct = account_or_new(s, a);
    with_account(s, a, Account { balance: (acct.balance - amount) as u64, nonce: acct.nonce })
}

/// `s` with the meter of `(owner, service_id)` replaced.
pub open spec fn with_meter(s: StateView, owner: Seq<char>, service_id: Seq<char>, m: MeterView) -> StateView {
    StateView { meters: s.meters.insert((owner, service_id), m), ..s }
}

/// `s` with the settlement under `k` replaced.
pub open spec fn with_settlement(s: StateView, k: Seq<char>, st: SettlementView) -> StateView {
    StateView { settlements: s.settlements.insert(k, st), ..s }
}

pub open spec fn mint_effect(s: StateView, to: Seq<char>, amount: u64) -> StateView {
    credit(s, to, amount)
}

/// Open (or reopen, keeping its totals) the meter, lock the deposit, advance the nonce.
pub open spec fn open_meter_effect(s: StateView, owner: Seq<char>, service_id: Seq<char>, deposit: u64, signer: Seq<char>) -> StateView {
    let m = if s.meters.contains_key((owner, service_id)) {
        MeterView { active: true, locked_deposit: deposit, ..s.meters[(owner, service_id)] }
    } else {
        new_meter_view(owner, service_id, deposit)
    };
    bump_nonce(debit(with_meter(s, owner, service_id, m), owner, deposit), signer)
}

/// Record the usage on the meter, charge the owner, advance the nonce of the nonce
/// account, and count the usage against the capability of a delegated consumption.
pub open spec fn consume_effect(
    s: StateView,
    owner: Seq<char>,
    service_id: Seq<char>,
    units: u64,
    cost: u64,
    nonce_account: Seq<char>,
    cap: Option<Seq<char>>,
) -> StateView {
    let m = s.meters[(owner, service_id)];
    let m2 = MeterView {
        total_units: sat_add(m.total_units, units),
        total_spent: sat_add(m.total_spent, cost),
        ..m
    };
    let s3 = bump_nonce(debit(with_meter(s, owner, service_id, m2), owner, cost), nonce_account);
    match cap {
        None => s3,
        Some(c) => StateView {
            capability_consumption: s3.capability_consumption.insert(
                c,
                CapabilityConsumption {
                    consumed_units: sat_add(consumption_of(s3, c).0, units),
                    consumed_cost: sat_add(consumption_of(s3, c).1, cost),
                },
            ),
            ..s3
        },
    }
}

/// Close the meter, return its deposit to the owner, advance the nonce.
pub open spec fn close_meter_effect(s: StateView, owner: Seq<char>, service_id: Seq<char>, signer: Seq<char>) -> StateView {
    let m = s.meters[(owner, service_id)];
    let m2 = MeterView { active: false, locked_deposit: 0, ..m };
    bump_nonce(credit(with_meter(s, owner, service_id, m2), owner, m.locked_deposit), signer)
}

pub open spec fn revoke_effect(s: StateView, cap: Seq<char>, signer: Seq<char>) -> StateView {
    bump_nonce(
        StateView { revoked_capability_ids: s.revoked_capability_ids.insert(cap), ..s },
        signer,
    )
}

/// The policy in force for a settlement proposed at log position `next_tx_id`, if known.
pub open spec fn bound_policy(s: StateView, owner: Seq<char>, service_id: Seq<char>, next_tx_id: Option<u64>) -> Option<PolicyVersionView> {
    match next_tx_id {
        Some(n) => resolve_policy_view(s.policy_versions, owner, service_id, n),
        None => None,
    }
}

/// Where a policy is in force, the proposed split must be the policy's; the settlement is
/// recorded with the policy bound, and the nonce advanced.
pub open spec fn propose_effect(s: StateView, t: SignedTxView, next_tx_id: Option<u64>) -> core::result::Result<StateView, ErrorKind> {
    match t.kind {
        TransactionView::ProposeSettlement {
            owner,
            service_id,
            window_id,
            from_tx_id,
            to_tx_id,
            gross_spent,
            operator_share,
            protocol_fee,
            reserve_locked,
            evidence_hash,
        } => {
            let p = bound_policy(s, owner, service_id, next_tx_id);
            let base = SettlementView {
                owner,
                service_id,
                window_id,
                gross_spent,
                operator_share,
                protocol_fee,
                reserve_locked,
                status: SettlementStatus::Proposed,
                evidence_hash,
                from_tx_id,
                to_tx_id,
                total_paid: 0,
                policy_scope_key: None,
                policy_version: None,
                dispute_window_secs: None,
                finalized_at: None,
            };
            match p {
                Some(pv) => if bps_of(gross_spent, pv.config.fee_policy.operator_share_bps)
                    != operator_share || bps_of(gross_spent, pv.config.fee_policy.protocol_fee_bps)
                    != protocol_fee || reserve_of(pv.config, gross_spent) != reserve_locked {
                    Err(ErrorKind::SettlementConservationViolation)
                } else {
                    let st = SettlementView {
                        policy_scope_key: Some(pv.scope_key),
                        policy_version: Some(pv.version),
                        dispute_window_secs: Some(pv.config.dispute_policy.dispute_window_secs),
                        ..base
                    };
                    Ok(
                        bump_nonce(
                            with_settlement(s, settlement_key_of(owner, service_id, window_id), st),
                            t.signer,
                        ),
                    )
                },
                None => Ok(
                    bump_nonce(
                        with_settlement(s, settlement_key_of(owner, service_id, window_id), base),
                        t.signer,
                    ),
                ),
            }
        },
        _ => Ok(s),
    }
}

/// Finalize the settlement (recording the time where a clock is given), advance the nonce.
pub open spec fn finalize_effect(s: StateView, k: Seq<char>, signer: Seq<char>, now: Option<u64>) -> StateView {
    let st = s.settlements[k];
    let st2 = SettlementView {
        status: SettlementStatus::Finalized,
        finalized_at: match now {
            Some(t) => Some(t),
            None => st.finalized_at,
        },
        ..st
    };
    bump_nonce(with_settlement(s, k, st2), signer)
}

pub open spec fn submit_claim_effect(s: StateView, operator: Seq<char>, k: Seq<char>, claim_amount: u64, signer: Seq<char>) -> StateView {
    let c = ClaimView { operator, settlement_key: k, claim_amount, status: ClaimStatus::Pending };
    bump_nonce(StateView { claims: s.claims.insert(operator + colon() + k, c), ..s }, signer)
}

/// Pay the claim (capped at what is still payable): the claim is paid, the settlement
/// records the payment, the operator is credited, the nonce advanced.
pub open spec fn pay_claim_effect(s: StateView, operator: Seq<char>, k: Seq<char>, signer: Seq<char>) -> StateView {
    let st = s.settlements[k];
    let ck = operator + colon() + k;
    let c = s.claims[ck];
    let amount = if c.claim_amount < payable_of(st) {
        c.claim_amount
    } else {
        payable_of(st)
    };
    let s1 = StateView { claims: s.claims.insert(ck, ClaimView { status: ClaimStatus::Paid, ..c }), ..s };
    let s2 = with_settlement(s1, k, add_paid_view(st, amount));
    bump_nonce(credit(s2, operator, amount), signer)
}

/// Open a dispute on the settlement and freeze it, advance the nonce.
pub open spec fn open_dispute_effect(
    s: StateView,
    owner: Seq<char>,
    service_id: Seq<char>,
    window_id: Seq<char>,
    reason_code: Seq<char>,
    evidence_hash: Seq<char>,
    signer: Seq<char>,
) -> StateView {
    let k = settlement_key_of(owner, service_id, window_id);
    let d = DisputeView {
        settlement_key: k,
        target_owner: owner,
        target_service_id: service_id,
        target_window_id: window_id,
        reason_code,
        evidence_hash,
        opened_at: 0,
        status: DisputeStatus::Open,
        resolution_audit: None,
    };
    let s1 = StateView { disputes: s.disputes.insert(k, d), ..s };
    let st = s1.settlements[k];
    bump_nonce(with_settlement(s1, k, SettlementView { status: SettlementStatus::Disputed, ..st }), signer)
}

/// The evidence bundle a resolution is checked against.
pub open spec fn resolution_bundle(k: Seq<char>, st: SettlementView, replay_hash: Seq<char>, summary: ReplaySummary) -> EvidenceBundleView {
    EvidenceBundleView {
        schema_version: CURRENT_EVIDENCE_SCHEMA_VERSION,
        replay_protocol_version: REPLAY_PROTOCOL_VERSION,
        settlement_key: k,
        from_tx_id: st.from_tx_id,
        to_tx_id: st.to_tx_id,
        evidence_hash: st.evidence_hash,
        replay_hash,
        replay_summary: summary,
    }
}

/// The evidence of a resolution must match the settlement: its evidence hash and window, a
/// well-formed bundle, the hash of the summary, and the settlement's totals. Then the
/// dispute is closed with the verdict and its evidence recorded; a dismissed dispute
/// unfreezes the settlement. The nonce is advanced.
pub open spec fn resolve_effect(
    s: StateView,
    k: Seq<char>,
    verdict: DisputeVerdict,
    evidence_hash: Seq<char>,
    replay_hash: Seq<char>,
    summary: ReplaySummary,
    signer: Seq<char>,
) -> core::result::Result<StateView, ErrorKind> {
    let st = s.settlements[k];
    if replay_hash.len() == 0 {
        Err(ErrorKind::InvalidEvidenceBundle)
    } else if st.evidence_hash != evidence_hash {
        Err(ErrorKind::ReplayMismatch)
    } else if summary.from_tx_id != st.from_tx_id || summary.to_tx_id != st.to_tx_id {
        Err(ErrorKind::ReplayMismatch)
    } else if bundle_shape_error(resolution_bundle(k, st, replay_hash, summary)) is Some {
        Err(bundle_shape_error(resolution_bundle(k, st, replay_hash, summary))->0)
    } else if evidence_hash_of(enc_summary(summary)) != replay_hash {
        Err(ErrorKind::ReplayMismatch)
    } else if st.gross_spent != summary.gross_spent || st.operator_share != summary.operator_share
        || st.protocol_fee != summary.protocol_fee || st.reserve_locked != summary.reserve_locked {
        Err(ErrorKind::ReplayMismatch)
    } else {
        let d = s.disputes[k];
        let status = match verdict {
            DisputeVerdict::Upheld => DisputeStatus::Upheld,
            DisputeVerdict::Dismissed => DisputeStatus::Dismissed,
        };
        let d2 = DisputeView {
            status,
            resolution_audit: Some(ResolutionAuditView { replay_hash, replay_summary: summary }),
            ..d
        };
        let s1 = StateView { disputes: s.disputes.insert(k, d2), ..s };
        let s2 = match verdict {
            DisputeVerdict::Dismissed => with_settlement(
                s1,
                k,
                SettlementView {
                    status: if st.status == SettlementStatus::Disputed {
                        SettlementStatus::Finalized
                    } else {
                        st.status
                    },
                    ..st
                },
            ),
            DisputeVerdict::Upheld => s1,
        };
        Ok(bump_nonce(s2, signer))
    }
}

/// Record a published policy version (published at `now`, 0 without a clock), advance the
/// nonce.
pub open spec fn publish_effect(s: StateView, t: SignedTxView, now: Option<u64>) -> StateView {
    match t.kind {
        TransactionView::PublishPolicyVersion { scope, version, effective_from_tx_id, config } => {
            let sk = scope_key_of(scope);
            let pv = PolicyVersionView {
                schema_version: POLICY_SCHEMA_VERSION,
                scope_key: sk,
                version,
                scope,
                effective_from_tx_id,
                published_by: t.signer,
                published_at: match now {
                    Some(x) => x,
                    None => 0,
                },
                config,
                status: PolicyVersionStatus::Published,
            };
            bump_nonce(
                StateView {
                    policy_versions: pairs_insert(s.policy_versions, policy_key_of(sk, version), pv),
                    ..s
                },
                t.signer,
            )
        },
        _ => s,
    }
}

/// Mark the policy version superseded, advance the nonce.
pub open spec fn supersede_effect(s: StateView, scope_key: Seq<char>, version: u64, signer: Seq<char>) -> StateView {
    let key = policy_key_of(scope_key, version);
    let p = pairs_to_map(s.policy_versions)[key];
    bump_nonce(
        StateView {
            policy_versions: pairs_insert(
                s.policy_versions,
                key,
                PolicyVersionView { status: PolicyVersionStatus::Superseded, ..p },
            ),
            ..s
        },
        signer,
    )
}

/// The state after a validated transaction (`cost` is what validation returned), or the
/// error of a resolution whose evidence does not match or a proposal that breaks the
/// policy in force.
pub open spec fn apply_effect(s: StateView, t: SignedTxView, ctx: ValidationContext, cost: Option<u64>) -> core::result::Result<StateView, ErrorKind> {
    match t.kind {
        TransactionView::Mint { to, amount } => Ok(mint_effect(s, to, amount)),
        TransactionView::OpenMeter { owner, service_id, deposit } => Ok(
            open_meter_effect(s, owner, service_id, deposit, t.signer),
        ),
        TransactionView::Consume { owner, service_id, units, .. } => Ok(
            consume_effect(
                s,
                owner,
                service_id,
                units,
                cost->0,
                match t.nonce_account {
                    Some(a) => a,
                    None => t.signer,
                },
                match t.delegation_proof {
                    Some(p) => Some(evidence_hash_of(p)),
                    None => None,
                },
            ),
        ),
        TransactionView::CloseMeter { owner, service_id } => Ok(
            close_meter_effect(s, owner, service_id, t.signer),
        ),
        TransactionView::RevokeDelegation { capability_id, .. } => Ok(
            revoke_effect(s, capability_id, t.signer),
        ),
        TransactionView::ProposeSettlement { .. } => propose_effect(s, t, ctx.next_tx_id),
        TransactionView::FinalizeSettlement { owner, service_id, window_id } => Ok(
            finalize_effect(s, settlement_key_of(owner, service_id, window_id), t.signer, ctx.now),
        ),
        TransactionView::SubmitClaim { operator, owner, service_id, window_id, claim_amount } => Ok(
            submit_claim_effect(
                s,
                operator,
                settlement_key_of(owner, service_id, window_id),
                claim_amount,
                t.signer,
            ),
        ),
        TransactionView::PayClaim { operator, owner, service_id, window_id } => Ok(
            pay_claim_effect(s, operator, settlement_key_of(owner, service_id, window_id), t.signer),
        ),
        TransactionView::OpenDispute { owner, service_id, window_id, reason_code, evidence_hash } => Ok(
            open_dispute_effect(
                s,
                owner,
                service_id,
                window_id,
                reason_code,
                evidence_hash,
                t.signer,
            ),
        ),
        TransactionView::ResolveDispute {
            owner,
            service_id,
            window_id,
            verdict,
            evidence_hash,
            replay_hash,
            replay_summary,
        } => resolve_effect(
            s,
            settlement_key_of(owner, service_id, window_id),
            verdict,
            evidence_hash,
            replay_hash,
            replay_summary,
            t.signer,
        ),
        TransactionView::PublishPolicyVersion { .. } => Ok(publish_effect(s, t, ctx.now)),
        TransactionView::SupersedePolicyVersion { scope_key, version } => Ok(
            supersede_effect(s, scope_key, version, t.signer),
        ),
    }
}

/// Validation, then the transition.
pub open spec fn apply_result(
    s: StateView,
    t: SignedTxView,
    ctx: ValidationContext,
    minters: Option<Set<Seq<char>>>,
) -> core::result::Result<StateView, ErrorKind> {
    match validation_result(s, t, ctx, minters) {
        Err(k) => Err(k),
        Ok(cost) => apply_effect(s, t, ctx, cost),
    }
}

/// The account whose nonce an accepted transaction advances: a consumption's nonce account
/// (its signer without one), otherwise the signer.
pub open spec fn advanced_account(t: SignedTxView) -> Seq<char> {
    match t.kind {
        TransactionView::Consume { .. } => match t.nonce_account {
            Some(a) => a,
            None => t.signer,
        },
        _ => t.signer,
    }
}

/// The inputs on which applying completes: the nonce of the account that every command but
/// Mint advances is below `u64::MAX`, and a policy split of a proposal fits in 64 bits.
pub open spec fn apply_safe(s: StateView, t: SignedTxView, ctx: ValidationContext) -> bool {
    &&& (t.kind is Mint || account_or_new(s, advanced_account(t)).nonce < u64::MAX)
    &&& match t.kind {
        TransactionView::ProposeSettlement { owner, service_id, gross_spent, .. } => match bound_policy(
            s,
            owner,
            service_id,
            ctx.next_tx_id,
        ) {
            Some(p) => gross_spent * p.config.fee_policy.operator_share_bps <= u64::MAX && gross_spent
                * p.config.fee_policy.protocol_fee_bps <= u64::MAX && reserve_fits(p.config, gross_spent),
            None => true,
        },
        _ => true,
    }
}

// ---------------------------------------------------------------------------------------
// The transitions, on states.
// ---------------------------------------------------------------------------------------

fn advance_nonce(state: &mut State, a: &str)
    requires
        old(state).wf(),
        account_or_new(old(state)@, a@).nonce < u64::MAX,
    ensures
        final(state).wf(),
        final(state)@ == bump_nonce(old(state)@, a@),
{
    let acct = state.get_or_create_account(a);
    acct.increment_nonce();
}

fn credit_account(state: &mut State, a: &str, amount: u64)
    requires
        old(state).wf(),
    ensures
        final(state).wf(),
        final(state)@ == credit(old(state)@, a@, amount),
{
    let acct = state.get_or_create_account(a);
    acct.add_balance(amount);
}

fn debit_account(state: &mut State, a: &str, amount: u64)
    requires
        old(state).wf(),
        old(state)@.accounts.contains_key(a@),
        old(state)@.accounts[a@].balance >= amount,
    ensures
        final(state).wf(),
        final(state)@ == debit(old(state)@, a@, amount),
{
    let acct = state.get_account_mut(a).unwrap();
    let _ = acct.subtract_balance(amount);
}

fn apply_open_meter(state: &mut State, owner: &str, service_id: &str, deposit: u64, signer: &str)
    requires
        old(state).wf(),
        signer@ == owner@,
        old(state)@.accounts.contains_key(owner@),
        old(state)@.accounts[owner@].balance >= deposit,
        old(state)@.accounts[owner@].nonce < u64::MAX,
    ensures
        final(state).wf(),
        final(state)@ == open_meter_effect(old(state)@, owner@, service_id@, deposit, signer@),
{
    match state.get_meter_mut(owner, service_id) {
        Some(meter) => {
            meter.reactivate(deposit);
        },
        None => {
            state.insert_meter(Meter::new(owned(owner), owned(service_id), deposit));
        },
    }
    debit_account(state, owner, deposit);
    advance_nonce(state, signer);
}

fn apply_consume(state: &mut State, owner: &str, service_id: &str, units: u64, cost: u64)
    requires
        old(state).wf(),
        old(state)@.meters.contains_key((owner@, service_id@)),
        old(state)@.accounts.contains_key(owner@),
        old(state)@.accounts[owner@].balance >= cost,
        old(state)@.accounts[owner@].nonce < u64::MAX,
    ensures
        final(state).wf(),
        final(state)@ == consume_effect(old(state)@, owner@, service_id@, units, cost, owner@, None),
{
    let meter = state.get_meter_mut(owner, service_id).unwrap();
    meter.record_consumption(units, cost);
    debit_account(state, owner, cost);
    advance_nonce(state, owner);
}

fn apply_close_meter(state: &mut State, owner: &str, service_id: &str, signer: &str)
    requires
        old(state).wf(),
        signer@ == owner@,
        old(state)@.meters.contains_key((owner@, service_id@)),
        old(state)@.accounts.contains_key(owner@),
        old(state)@.accounts[owner@].nonce < u64::MAX,
    ensures
        final(state).wf(),
        final(state)@ == close_meter_effect(old(state)@, owner@, service_id@, signer@),
{
    let meter = state.get_meter_mut(owner, service_id).unwrap();
    let deposit = meter.close();
    credit_account(state, owner, deposit);
    advance_nonce(state, signer);
}

fn apply_revoke_delegation(state: &mut State, capability_id: &str, signer: &str)
    requires
        old(state).wf(),
        account_or_new(old(state)@, signer@).nonce < u64::MAX,
    ensures
        final(state).wf(),
        final(state)@ == revoke_effect(old(state)@, capability_id@, signer@),
{
    state.revoke_capability(owned(capability_id));
    advance_nonce(state, signer);
}

/// The policy bound to a proposal: its scope key, version and dispute window.
fn binding_of(state: &State, owner: &str, service_id: &str, next_tx_id: Option<u64>, gross_spent: u64) -> (r: Option<(String, u64, u64, u64, u64, u64)>)
    requires
        state.wf(),
        bound_policy(state@, owner@, service_id@, next_tx_id) matches Some(p) ==> gross_spent
            * p.config.fee_policy.operator_share_bps <= u64::MAX && gross_spent
            * p.config.fee_policy.protocol_fee_bps <= u64::MAX && reserve_fits(p.config, gross_spent),
    ensures
        match bound_policy(state@, owner@, service_id@, next_tx_id) {
            None => r is None,
            Some(p) => r matches Some((k, v, w, op, proto, res)) && k@ == p.scope_key && v == p.version
                && w == p.config.dispute_policy.dispute_window_secs && op == bps_of(
                gross_spent,
                p.config.fee_policy.operator_share_bps,
            ) && proto == bps_of(gross_spent, p.config.fee_policy.protocol_fee_bps) && res
                == reserve_of(p.config, gross_spent),
        },
{
    match next_tx_id {
        None => None,
        Some(current) => match state.resolve_policy(owner, service_id, current) {
            None => None,
            Some(policy) => {
                let (op, proto) = policy.config.fee_policy.split(gross_spent);
                let res = policy.config.reserve_from_gross(gross_spent);
                Some(
                    (
                        policy.id.scope_key.clone(),
                        policy.id.version,
                        policy.config.dispute_policy.dispute_window_secs,
                        op,
                        proto,
                        res,
                    ),
                )
            },
        },
    }
}

#[verifier::rlimit(30)]
fn apply_propose_settlement(state: &mut State, tx: &SignedTx, next_tx_id: Option<u64>) -> (r: Result<()>)
    requires
        old(state).wf(),
        tx.kind is ProposeSettlement,
        account_or_new(old(state)@, tx.signer@).nonce < u64::MAX,
        apply_safe(old(state)@, tx@, ValidationContext { mode: crate::tx::validation::ValidationMode::Replay, now: None, max_age: None, next_tx_id }),
    ensures
        match propose_effect(old(state)@, tx@, next_tx_id) {
            Ok(v) => r is Ok && final(state)@ == v && final(state).wf(),
            Err(k) => r matches Err(e) && e.kind() == k && final(state)@ == old(state)@ && final(state).wf(),
        },
{
    match &tx.kind {
        Transaction::ProposeSettlement {
            owner,
            service_id,
            window_id,
            from_tx_id,
            to_tx_id,
            gross_spent,
            operator_share,
            protocol_fee,
            reserve_locked,
            evidence_hash,
        } => {
            let binding = binding_of(state, owner.as_str(), service_id.as_str(), next_tx_id, *gross_spent);
            if let Some((_, _, _, op, proto, res)) = &binding {
                if *op != *operator_share || *proto != *protocol_fee || *res != *reserve_locked {
                    return Err(Error::SettlementConservationViolation);
                }
            }
            let id = SettlementId::new(owner.clone(), service_id.clone(), window_id.clone());
            let mut settlement = Settlement::proposed(
                id,
                *gross_spent,
                *operator_share,
                *protocol_fee,
                *reserve_locked,
                evidence_hash.clone(),
                *from_tx_id,
                *to_tx_id,
            );
            if let Some((k, v, w, _, _, _)) = binding {
                settlement.set_bound_policy(k, v, w);
            }
            state.insert_settlement(settlement);
            advance_nonce(state, tx.signer.as_str());
            Ok(())
        },
        _ => Ok(()),
    }
}

fn apply_finalize_settlement(state: &mut State, id: &SettlementId, signer: &str, now: Option<u64>)
    requires
        old(state).wf(),
        old(state)@.settlements.contains_key(id.key_view()),
        account_or_new(old(state)@, signer@).nonce < u64::MAX,
    ensures
        final(state).wf(),
        final(state)@ == finalize_effect(old(state)@, id.key_view(), signer@, now),
{
    let s = state.get_settlement_mut(id).unwrap();
    s.finalize();
    if let Some(t) = now {
        s.set_finalized_at(t);
    }
    advance_nonce(state, signer);
}

fn apply_submit_claim(state: &mut State, operator: &str, id: &SettlementId, claim_amount: u64, signer: &str)
    requires
        old(state).wf(),
        account_or_new(old(state)@, signer@).nonce < u64::MAX,
    ensures
        final(state).wf(),
        final(state)@ == submit_claim_effect(old(state)@, operator@, id.key_view(), claim_amount, signer@),
{
    let cid = ClaimId::new(owned(operator), id);
    state.insert_claim(Claim::pending(cid, claim_amount));
    advance_nonce(state, signer);
}

fn apply_pay_claim(state: &mut State, operator: &str, id: &SettlementId, signer: &str)
    requires
        old(state).wf(),
        old(state)@.settlements.contains_key(id.key_view()),
        old(state)@.claims.contains_key(operator@ + colon() + id.key_view()),
        account_or_new(old(state)@, signer@).nonce < u64::MAX,
    ensures
        final(state).wf(),
        final(state)@ == pay_claim_effect(old(state)@, operator@, id.key_view(), signer@),
{
    let cid = ClaimId::new(owned(operator), id);
    let payable = state.get_settlement(id).unwrap().payable();
    let claim = state.get_claim_mut(&cid).unwrap();
    let amount = if claim.claim_amount < payable {
        claim.claim_amount
    } else {
        payable
    };
    claim.pay();
    let s = state.get_settlement_mut(id).unwrap();
    s.add_paid(amount);
    credit_account(state, operator, amount);
    advance_nonce(state, signer);
}

fn apply_open_dispute(
    state: &mut State,
    owner: &str,
    service_id: &str,
    window_id: &str,
    reason_code: &str,
    evidence_hash: &str,
    signer: &str,
)
    requires
        old(state).wf(),
        old(state)@.settlements.contains_key(settlement_key_of(owner@, service_id@, window_id@)),
        account_or_new(old(state)@, signer@).nonce < u64::MAX,
    ensures
        final(state).wf(),
        final(state)@ == open_dispute_effect(
            old(state)@,
            owner@,
            service_id@,
            window_id@,
            reason_code@,
            evidence_hash@,
            signer@,
        ),
{
    let target = SettlementId::new(owned(owner), owned(service_id), owned(window_id));
    let dispute = Dispute::open(target, owned(reason_code), owned(evidence_hash), 0);
    state.insert_dispute(dispute);
    let sid = SettlementId::new(owned(owner), owned(service_id), owned(window_id));
    let s = state.get_settlement_mut(&sid).unwrap();
    s.mark_disputed();
    advance_nonce(state, signer);
}

#[verifier::rlimit(40)]
fn apply_resolve_dispute(
    state: &mut State,
    id: &SettlementId,
    verdict: DisputeVerdict,
    evidence_hash: &str,
    replay_hash: &str,
    replay_summary: &ReplaySummary,
    signer: &str,
) -> (r: Result<()>)
    requires
        old(state).wf(),
        old(state)@.settlements.contains_key(id.key_view()),
        old(state)@.disputes.contains_key(id.key_view()),
        account_or_new(old(state)@, signer@).nonce < u64::MAX,
    ensures
        match resolve_effect(old(state)@, id.key_view(), verdict, evidence_hash@, replay_hash@, *replay_summary, signer@) {
            Ok(v) => r is Ok && final(state)@ == v && final(state).wf(),
            Err(k) => r matches Err(e) && e.kind() == k && final(state)@ == old(state)@ && final(state).wf(),
        },
{
    let s = state.get_settlement(id).unwrap();
    if replay_hash.is_empty() {
        return Err(Error::InvalidEvidenceBundle);
    }
    if !crate::text::str_eq(s.evidence_hash.as_str(), evidence_hash) {
        return Err(Error::ReplayMismatch);
    }
    if replay_summary.from_tx_id != s.from_tx_id || replay_summary.to_tx_id != s.to_tx_id {
        return Err(Error::ReplayMismatch);
    }
    let bundle = EvidenceBundle {
        schema_version: CURRENT_EVIDENCE_SCHEMA_VERSION,
        replay_protocol_version: REPLAY_PROTOCOL_VERSION,
        settlement_key: id.key(),
        from_tx_id: s.from_tx_id,
        to_tx_id: s.to_tx_id,
        evidence_hash: s.evidence_hash.clone(),
        replay_hash: owned(replay_hash),
        replay_summary: replay_summary.duplicate(),
    };
    bundle.validate_shape()?;
    let computed = replay_summary.replay_hash();
    if !crate::text::str_eq(computed.as_str(), replay_hash) {
        return Err(Error::ReplayMismatch);
    }
    if s.gross_spent != replay_summary.gross_spent || s.operator_share
        != replay_summary.operator_share || s.protocol_fee != replay_summary.protocol_fee
        || s.reserve_locked != replay_summary.reserve_locked {
        return Err(Error::ReplayMismatch);
    }
    let did = DisputeId::new(id);
    let dispute = state.get_dispute_mut(&did).unwrap();
    let status = match verdict {
        DisputeVerdict::Upheld => DisputeStatus::Upheld,
        DisputeVerdict::Dismissed => DisputeStatus::Dismissed,
    };
    dispute.resolve(status);
    dispute.set_resolution_audit(
        ResolutionAudit { replay_hash: owned(replay_hash), replay_summary: replay_summary.duplicate() },
    );
    match verdict {
        DisputeVerdict::Dismissed => {
            let s = state.get_settlement_mut(id).unwrap();
            s.reopen_after_dismissed();
        },
        DisputeVerdict::Upheld => {},
    }
    advance_nonce(state, signer);
    Ok(())
}

fn apply_publish_policy_version(state: &mut State, tx: &SignedTx, published_at: Option<u64>)
    requires
        old(state).wf(),
        tx.kind is PublishPolicyVersion,
        account_or_new(old(state)@, tx.signer@).nonce < u64::MAX,
    ensures
        final(state).wf(),
        final(state)@ == publish_effect(old(state)@, tx@, published_at),
{
    match &tx.kind {
        Transaction::PublishPolicyVersion { scope, version, effective_from_tx_id, config } => {
            let scope_key = scope.scope_key();
            let pv = PolicyVersion {
                schema_version: POLICY_SCHEMA_VERSION,
                id: PolicyVersionId { scope_key, version: *version },
                scope: scope.duplicate(),
                effective_from_tx_id: *effective_from_tx_id,
                published_by: tx.signer.clone(),
                published_at: match published_at {
                    Some(x) => x,
                    None => 0,
                },
                config: config.duplicate(),
                status: PolicyVersionStatus::Published,
            };
            state.insert_policy_version(pv);
            advance_nonce(state, tx.signer.as_str());
        },
        _ => {},
    }
}

fn apply_supersede_policy_version(state: &mut State, scope_key: &str, version: u64, signer: &str)
    requires
        old(state).wf(),
        pairs_to_map(old(state)@.policy_versions).contains_key(policy_key_of(scope_key@, version)),
        account_or_new(old(state)@, signer@).nonce < u64::MAX,
    ensures
        final(state).wf(),
        final(state)@ == supersede_effect(old(state)@, scope_key@, version, signer@),
{
    proof {
        state.policy_versions.lemma_view();
    }
    let id = PolicyVersionId { scope_key: owned(scope_key), version };
    let pv = state.get_policy_version_mut(&id).unwrap();
    pv.status = PolicyVersionStatus::Superseded;
    advance_nonce(state, signer);
}

/// The transition of a validated transaction (`cost` is what validation returned).
#[verifier::rlimit(60)]
fn transition(
    state: &mut State,
    tx: &SignedTx,
    ctx: &ValidationContext,
    cost: Option<u64>,
    Ghost(minters): Ghost<Option<Set<Seq<char>>>>,
) -> (r: Result<()>)
    requires
        old(state).wf(),
        validation_result(old(state)@, tx@, *ctx, minters) == Ok::<Option<u64>, ErrorKind>(cost),
        apply_safe(old(state)@, tx@, *ctx),
    ensures
        final(state).wf(),
        match apply_effect(old(state)@, tx@, *ctx, cost) {
            Ok(v) => r is Ok && final(state)@ == v,
            Err(k) => r matches Err(e) && e.kind() == k,
        },
{
    match &tx.kind {
        Transaction::Mint { to, amount } => {
            credit_account(state, to.as_str(), *amount);
            Ok(())
        },
        Transaction::OpenMeter { owner, service_id, deposit } => {
            apply_open_meter(state, owner.as_str(), service_id.as_str(), *deposit, tx.signer.as_str());
            Ok(())
        },
        Transaction::Consume { owner, service_id, units, .. } => {
            let c = match cost {
                Some(c) => c,
                None => 0,
            };
            apply_consume(state, owner.as_str(), service_id.as_str(), *units, c);
            if let Some(proof_bytes) = &tx.delegation_proof {
                let cap_id = capability_id(proof_bytes.as_slice());
                state.record_capability_consumption(cap_id, *units, c);
            }
            Ok(())
        },
        Transaction::CloseMeter { owner, service_id } => {
            apply_close_meter(state, owner.as_str(), service_id.as_str(), tx.signer.as_str());
            Ok(())
        },
        Transaction::RevokeDelegation { capability_id, .. } => {
            apply_revoke_delegation(state, capability_id.as_str(), tx.signer.as_str());
            Ok(())
        },
        Transaction::ProposeSettlement { .. } => {
            apply_propose_settlement(state, tx, ctx.next_tx_id)
        },
        Transaction::FinalizeSettlement { owner, service_id, window_id } => {
            let id = SettlementId::new(owner.clone(), service_id.clone(), window_id.clone());
            apply_finalize_settlement(state, &id, tx.signer.as_str(), ctx.now);
            Ok(())
        },
        Transaction::SubmitClaim { operator, owner, service_id, window_id, claim_amount } => {
            let id = SettlementId::new(owner.clone(), service_id.clone(), window_id.clone());
            apply_submit_claim(state, operator.as_str(), &id, *claim_amount, tx.signer.as_str());
            Ok(())
        },
        Transaction::PayClaim { operator, owner, service_id, window_id } => {
            let id = SettlementId::new(owner.clone(), service_id.clone(), window_id.clone());
            apply_pay_claim(state, operator.as_str(), &id, tx.signer.as_str());
            Ok(())
        },
        Transaction::OpenDispute { owner, service_id, window_id, reason_code, evidence_hash } => {
            apply_open_dispute(
                state,
                owner.as_str(),
                service_id.as_str(),
                window_id.as_str(),
                reason_code.as_str(),
                evidence_hash.as_str(),
                tx.signer.as_str(),
            );
            Ok(())
        },
        Transaction::ResolveDispute {
            owner,
            service_id,
            window_id,
            verdict,
            evidence_hash,
            replay_hash,
            replay_summary,
        } => {
            let id = SettlementId::new(owner.clone(), service_id.clone(), window_id.clone());
            apply_resolve_dispute(
                state,
                &id,
                *verdict,
                evidence_hash.as_str(),
                replay_hash.as_str(),
                replay_summary,
                tx.signer.as_str(),
            )
        },
        Transaction::PublishPolicyVersion { .. } => {
            apply_publish_policy_version(state, tx, ctx.now);
            Ok(())
        },
        Transaction::SupersedePolicyVersion { scope_key, version } => {
            apply_supersede_policy_version(state, scope_key.as_str(), *version, tx.signer.as_str());
            Ok(())
        },
    }
}

/// A call the machine made on its hook, with the arguments it passed: owner, service id, then
/// the deposit, or the units and cost (and, after a consumption, its capability id).
pub enum HookCall {
    BeforeMeterOpen(Seq<char>, Seq<char>, u64),
    OnMeterOpened(Seq<char>, Seq<char>, u64),
    BeforeConsume(Seq<char>, Seq<char>, u64, u64),
    OnConsumeRecorded(Seq<char>, Seq<char>, u64, u64, Option<Seq<char>>),
    BeforeMeterClose(Seq<char>, Seq<char>, u64),
    OnMeterClosed(Seq<char>, Seq<char>, u64),
}

/// A call on the hook and what the hook answered.
pub type HookAnswer = (HookCall, core::result::Result<(), Error>);

/// What applying gives, with the new state by its view.
pub open spec fn result_view(r: Result<State>) -> core::result::Result<StateView, Error> {
    match r {
        Ok(ns) => Ok(ns@),
        Err(e) => Err(e),
    }
}

/// The capability a consumption is counted against: the id of its delegation proof.
pub open spec fn capability_of(t: SignedTxView) -> Option<Seq<char>> {
    match t.delegation_proof {
        Some(p) => Some(evidence_hash_of(p)),
        None => None,
    }
}

/// A metering transition run between two hook calls: `before` is asked first and a refusal
/// is the outcome; then the transition; then `after` is told, and its refusal is the outcome.
pub open spec fn guarded_run(
    calls: Seq<HookAnswer>,
    before: HookCall,
    after: HookCall,
    effect: core::result::Result<StateView, ErrorKind>,
    out: core::result::Result<StateView, Error>,
) -> bool {
    &&& calls.len() >= 1
    &&& calls[0].0 == before
    &&& match calls[0].1 {
        Err(e) => calls.len() == 1 && out == Err::<StateView, Error>(e),
        Ok(_) => match effect {
            Err(k) => calls.len() == 1 && (out matches Err(e2) && e2.kind() == k),
            Ok(v) => {
                &&& calls.len() == 2
                &&& calls[1].0 == after
                &&& match calls[1].1 {
                    Err(e) => out == Err::<StateView, Error>(e),
                    Ok(_) => out == Ok::<StateView, Error>(v),
                }
            },
        },
    }
}

/// One application through a machine: validation first (the hook is not called on a
/// rejected transaction); OpenMeter, Consume and CloseMeter run between their hook calls;
/// other commands apply without calling the hook. `calls` are the hook calls made, with the
/// hook's answers; `out` is the outcome.
pub open spec fn hooked_apply(
    s: StateView,
    t: SignedTxView,
    ctx: ValidationContext,
    minters: Option<Set<Seq<char>>>,
    calls: Seq<HookAnswer>,
    out: core::result::Result<StateView, Error>,
) -> bool {
    match validation_result(s, t, ctx, minters) {
        Err(k) => calls.len() == 0 && (out matches Err(e) && e.kind() == k),
        Ok(cost) => match t.kind {
            TransactionView::OpenMeter { owner, service_id, deposit } => guarded_run(
                calls,
                HookCall::BeforeMeterOpen(owner, service_id, deposit),
                HookCall::OnMeterOpened(owner, service_id, deposit),
                apply_effect(s, t, ctx, cost),
                out,
            ),
            TransactionView::Consume { owner, service_id, units, .. } => {
                let c = match cost {
                    Some(c) => c,
                    None => 0,
                };
                guarded_run(
                    calls,
                    HookCall::BeforeConsume(owner, service_id, units, c),
                    HookCall::OnConsumeRecorded(owner, service_id, units, c, capability_of(t)),
                    apply_effect(s, t, ctx, cost),
                    out,
                )
            },
            TransactionView::CloseMeter { owner, service_id } => {
                let d = if s.meters.contains_key((owner, service_id)) {
                    s.meters[(owner, service_id)].locked_deposit
                } else {
                    0
                };
                guarded_run(
                    calls,
                    HookCall::BeforeMeterClose(owner, service_id, d),
                    HookCall::OnMeterClosed(owner, service_id, d),
                    apply_effect(s, t, ctx, cost),
                    out,
                )
            },
            _ => calls.len() == 0 && match apply_effect(s, t, ctx, cost) {
                Ok(v) => out == Ok::<StateView, Error>(v),
                Err(k) => out matches Err(e) && e.kind() == k,
            },
        },
    }
}

/// Applies transactions with a hook that observes metering and may veto it.
pub struct StateMachine<M> {
    hook: M,
    calls: Ghost<Seq<HookAnswer>>,
}

impl<M> StateMachine<M> {
    /// The hook the machine holds.
    pub closed spec fn held_hook(&self) -> M {
        self.hook
    }

    /// Every call the machine has made on its hook, in order, with the hook's answers.
    pub closed spec fn hook_calls(&self) -> Seq<HookAnswer> {
        self.calls@
    }
}

impl<M: ApplyHook> StateMachine<M> {
    pub fn new(hook: M) -> (sm: Self)
        ensures
            sm.held_hook() == hook,
            sm.hook_calls() == Seq::<HookAnswer>::empty(),
    {
        StateMachine { hook, calls: Ghost(Seq::empty()) }
    }

    /// The hook, giving up the machine.
    pub fn into_hook(self) -> (h: M)
        ensures
            h == self.held_hook(),
    {
        self.hook
    }

    pub fn hook(&self) -> (h: &M)
        ensures
            *h == self.held_hook(),
    {
        &self.hook
    }

    pub fn hook_mut(&mut self) -> (h: &mut M)
        ensures
            *h == old(self).held_hook(),
            final(self).held_hook() == *final(h),
            final(self).hook_calls() == old(self).hook_calls(),
    {
        &mut self.hook
    }

    /// Validate, consult the hook, then apply: the new state, with `state` untouched. A
    /// rejected transaction fails as validation says; an OpenMeter, Consume or CloseMeter is
    /// asked of the hook before it runs, and the hook is told after; a refusal by the hook is
    /// the outcome. The calls made, with the hook's answers, are added to `hook_calls`.
    pub fn apply(
        &mut self,
        state: &State,
        tx: &SignedTx,
        ctx: &ValidationContext,
        authorized_minters: Option<&NameSet>,
    ) -> (r: Result<State>)
        requires
            state.wf(),
            minters_wf(authorized_minters),
            apply_safe(state@, tx@, *ctx),
        ensures
            r matches Ok(ns) ==> ns.wf() && apply_result(state@, tx@, *ctx, minters_view(authorized_minters))
                == Ok::<StateView, ErrorKind>(ns@),
            apply_result(state@, tx@, *ctx, minters_view(authorized_minters)) matches Err(k) ==> r matches Err(
                e,
            ) && e.kind() == k,
            r is Err && apply_result(state@, tx@, *ctx, minters_view(authorized_minters)) is Ok ==> (
            tx.kind is OpenMeter || tx.kind is Consume || tx.kind is CloseMeter),
            validation_result(state@, tx@, *ctx, minters_view(authorized_minters)) is Err || !(
            tx.kind is OpenMeter || tx.kind is Consume || tx.kind is CloseMeter) ==> final(self).held_hook()
                == old(self).held_hook(),
            final(self).hook_calls().len() >= old(self).hook_calls().len(),
            final(self).hook_calls().take(old(self).hook_calls().len() as int) == old(self).hook_calls(),
            hooked_apply(
                state@,
                tx@,
                *ctx,
                minters_view(authorized_minters),
                final(self).hook_calls().skip(old(self).hook_calls().len() as int),
                result_view(r),
            ),
            r matches Ok(ns) ==> ns.wf(),
            mint_unauthorized(tx@, minters_view(authorized_minters)) ==> (r matches Err(
                Error::InvalidTransaction(msg),
            ) && msg@ == unauthorized_mint_text(tx.signer@)),
            payout_frozen(state@, tx@, minters_view(authorized_minters)) ==> (r matches Err(
                Error::InvalidTransaction(msg),
            ) && msg@ == "Payout frozen by dispute"@),
            M::allows_everything() ==> final(self).held_hook() == old(self).held_hook() && match apply_result(
                state@,
                tx@,
                *ctx,
                minters_view(authorized_minters),
            ) {
                Ok(v) => r matches Ok(ns) && ns.wf() && ns@ == v,
                Err(k) => r matches Err(e) && e.kind() == k,
            },
    {
        let cost_opt = validate(state, tx, ctx, authorized_minters)?;
        let mut new_state = state.duplicate();
        match &tx.kind {
            Transaction::OpenMeter { owner, service_id, deposit } => {
                let a1 = self.hook.before_meter_open(owner.as_str(), service_id.as_str(), *deposit);
                self.calls = Ghost(self.calls@.push((HookCall::BeforeMeterOpen(owner@, service_id@, *deposit), a1)));
                if let Err(e) = a1 {
                    return Err(e);
                }
                transition(&mut new_state, tx, ctx, cost_opt, Ghost(minters_view(authorized_minters)))?;
                let a2 = self.hook.on_meter_opened(owner.as_str(), service_id.as_str(), *deposit);
                self.calls = Ghost(self.calls@.push((HookCall::OnMeterOpened(owner@, service_id@, *deposit), a2)));
                if let Err(e) = a2 {
                    return Err(e);
                }
            },
            Transaction::Consume { owner, service_id, units, .. } => {
                let cost = match cost_opt {
                    Some(c) => c,
                    None => 0,
                };
                let a1 = self.hook.before_consume(owner.as_str(), service_id.as_str(), *units, cost);
                self.calls = Ghost(self.calls@.push((HookCall::BeforeConsume(owner@, service_id@, *units, cost), a1)));
                if let Err(e) = a1 {
                    return Err(e);
                }
                transition(&mut new_state, tx, ctx, cost_opt, Ghost(minters_view(authorized_minters)))?;
                let cap_id_opt = match &tx.delegation_proof {
                    Some(proof_bytes) => Some(capability_id(proof_bytes.as_slice())),
                    None => None,
                };
                let cap_ref: Option<&str> = match &cap_id_opt {
                    Some(c) => Some(c.as_str()),
                    None => None,
                };
                let a2 = self.hook.on_consume_recorded(owner.as_str(), service_id.as_str(), *units, cost, cap_ref);
                self.calls = Ghost(
                    self.calls@.push((HookCall::OnConsumeRecorded(owner@, service_id@, *units, cost, capability_of(tx@)), a2)),
                );
                if let Err(e) = a2 {
                    return Err(e);
                }
            },
            Transaction::CloseMeter { owner, service_id } => {
                let deposit_returned = match state.get_meter(owner.as_str(), service_id.as_str()) {
                    Some(m) => m.locked_deposit(),
                    None => 0,
                };
                let a1 = self.hook.before_meter_close(owner.as_str(), service_id.as_str(), deposit_returned);
                self.calls = Ghost(
                    self.calls@.push((HookCall::BeforeMeterClose(owner@, service_id@, deposit_returned), a1)),
                );
                if let Err(e) = a1 {
                    return Err(e);
                }
                transition(&mut new_state, tx, ctx, cost_opt, Ghost(minters_view(authorized_minters)))?;
                let a2 = self.hook.on_meter_closed(owner.as_str(), service_id.as_str(), deposit_returned);
                self.calls = Ghost(
                    self.calls@.push((HookCall::OnMeterClosed(owner@, service_id@, deposit_returned), a2)),
                );
                if let Err(e) = a2 {
                    return Err(e);
                }
            },
            _ => {
                transition(&mut new_state, tx, ctx, cost_opt, Ghost(minters_view(authorized_minters)))?;
            },
        }
        Ok(new_state)
    }
}

/// Validate and apply with the hook that does nothing (`StateMachine` over `NoOpHook`): the
/// new state, with `state` untouched. Without a set
/// of authorized signers (replay) authority checks are skipped; `ctx` is the replay context
/// when replaying the log, a Live one for new transactions.
pub fn apply(
    state: &State,
    tx: &SignedTx,
    ctx: &ValidationContext,
    authorized_minters: Option<&NameSet>,
) -> (r: Result<State>)
    requires
        state.wf(),
        minters_wf(authorized_minters),
        apply_safe(state@, tx@, *ctx),
    ensures
        match apply_result(state@, tx@, *ctx, minters_view(authorized_minters)) {
            Ok(v) => r matches Ok(ns) && ns.wf() && ns@ == v,
            Err(k) => r matches Err(e) && e.kind() == k,
        },
        mint_unauthorized(tx@, minters_view(authorized_minters)) ==> (r matches Err(
            Error::InvalidTransaction(msg),
        ) && msg@ == unauthorized_mint_text(tx.signer@)),
        payout_frozen(state@, tx@, minters_view(authorized_minters)) ==> (r matches Err(
            Error::InvalidTransaction(msg),
        ) && msg@ == "Payout frozen by dispute"@),
{
    let mut machine = StateMachine::new(NoOpHook);
    machine.apply(state, tx, ctx, authorized_minters)
}

/// Whether applying `tx` can complete: its nonce can advance, and a proposal's split under the
/// policy in force fits in 64 bits.
pub fn apply_is_safe(state: &State, tx: &SignedTx, ctx: &ValidationContext) -> (b: bool)
    requires
        state.wf(),
    ensures
        b == apply_safe(state@, tx@, *ctx),
{
    let nonce_ok = match &tx.kind {
        Transaction::Mint { .. } => true,
        _ => {
            let a: &str = match &tx.kind {
                Transaction::Consume { .. } => match &tx.nonce_account {
                    Some(n) => n.as_str(),
                    None => tx.signer.as_str(),
                },
                _ => tx.signer.as_str(),
            };
            let current = match state.get_account(a) {
                Some(acc) => acc.nonce(),
                None => 0,
            };
            current < u64::MAX
        },
    };
    if !nonce_ok {
        return false;
    }
    match &tx.kind {
        Transaction::ProposeSettlement { owner, service_id, gross_spent, .. } => match ctx.next_tx_id {
            None => true,
            Some(n) => match state.resolve_policy(owner.as_str(), service_id.as_str(), n) {
                None => true,
                Some(p) => {
                    let g = *gross_spent;
                    let fits_fees = g.checked_mul(p.config.fee_policy.operator_share_bps as u64).is_some()
                        && g.checked_mul(p.config.fee_policy.protocol_fee_bps as u64).is_some();
                    let fits_reserve = match &p.config.reserve_policy {
                        crate::state::policy::ReservePolicy::Bps { reserve_bps } => g.checked_mul(
                            *reserve_bps as u64,
                        ).is_some(),
                        _ => true,
                    };
                    fits_fees && fits_reserve
                },
            },
        },
        _ => true,
    }
}

} // verus!

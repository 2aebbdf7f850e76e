//! Settlement, claim and dispute aggregates.
use crate::evidence::ReplaySummary;
use crate::state::account::{sat_add, sat_sub};
use crate::table::Duplicate;
use crate::text::{colon, join_colon2, join_colon3};
use vstd::prelude::*;

verus! {

/// Settlement status lifecycle.
#[derive(Debug, Clone, Copy, PartialEq, Eq, Structural)]
pub enum SettlementStatus {
    /// Window computed, awaiting finalization.
    Proposed,
    /// Economically final; payouts allowed.
    Finalized,
    /// Fully paid out.
    Claimed,
    /// Dispute opened; payouts frozen.
    Disputed,
    /// Dispute closed.
    Resolved,
}

/// Claim status.
#[derive(Debug, Clone, Copy, PartialEq, Eq, Structural)]
pub enum ClaimStatus {
    /// Submitted, payment not executed.
    Pending,
    /// Payout executed and recorded.
    Paid,
    /// Rejected.
    Rejected,
}

/// Settlement identity: `(owner, service_id, window_id)`.
#[derive(Debug, Clone, PartialEq, Eq)]
pub struct SettlementId {
    pub owner: String,
    pub service_id: String,
    pub window_id: String,
}

/// The storage key of a settlement: `<owner>:<service_id>:<window_id>`.
pub open spec fn settlement_key_of(owner: Seq<char>, service_id: Seq<char>, window_id: Seq<char>) -> Seq<char> {
    owner + colon() + service_id + colon() + window_id
}

impl SettlementId {
    pub fn new(owner: String, service_id: String, window_id: String) -> (id: SettlementId)
        ensures
            id.owner@ == owner@,
            id.service_id@ == service_id@,
            id.window_id@ == window_id@,
    {
        SettlementId { owner, service_id, window_id }
    }

    /// The storage key `<owner>:<service_id>:<window_id>`.
    pub fn key(&self) -> (k: String)
        ensures
            k@ == settlement_key_of(self.owner@, self.service_id@, self.window_id@),
    {
        join_colon3(self.owner.as_str(), self.service_id.as_str(), self.window_id.as_str())
    }

    pub open spec fn key_view(&self) -> Seq<char> {
        settlement_key_of(self.owner@, self.service_id@, self.window_id@)
    }

    fn duplicate_id(&self) -> (r: SettlementId)
        ensures
            r.owner@ == self.owner@,
            r.service_id@ == self.service_id@,
            r.window_id@ == self.window_id@,
    {
        SettlementId {
            owner: self.owner.clone(),
            service_id: self.service_id.clone(),
            window_id: self.window_id.clone(),
        }
    }
}

/// Settlement aggregate.
#[derive(Debug, Clone, PartialEq, Eq)]
pub struct Settlement {
    pub id: SettlementId,
    pub gross_spent: u64,
    pub operator_share: u64,
    pub protocol_fee: u64,
    pub reserve_locked: u64,
    pub status: SettlementStatus,
    pub evidence_hash: String,
    /// Tx range covered (from inclusive, to exclusive).
    pub from_tx_id: u64,
    pub to_tx_id: u64,
    /// Paid out via claims so far (never above `operator_share`).
    pub total_paid: u64,
    /// Scope key of the policy bound at proposal, if any.
    pub policy_scope_key: Option<String>,
    /// Version of the policy bound at proposal, if any.
    pub policy_version: Option<u64>,
    /// Dispute window of the bound policy, if any.
    pub dispute_window_secs: Option<u64>,
    /// Time of finalization, when a clock was available.
    pub finalized_at: Option<u64>,
}

/// Abstract settlement.
pub struct SettlementView {
    pub owner: Seq<char>,
    pub service_id: Seq<char>,
    pub window_id: Seq<char>,
    pub gross_spent: u64,
    pub operator_share: u64,
    pub protocol_fee: u64,
    pub reserve_locked: u64,
    pub status: SettlementStatus,
    pub evidence_hash: Seq<char>,
    pub from_tx_id: u64,
    pub to_tx_id: u64,
    pub total_paid: u64,
    pub policy_scope_key: Option<Seq<char>>,
    pub policy_version: Option<u64>,
    pub dispute_window_secs: Option<u64>,
    pub finalized_at: Option<u64>,
}

/// The view of an optional string.
pub open spec fn opt_str(o: Option<String>) -> Option<Seq<char>> {
    match o {
        Some(s) => Some(s@),
        None => None,
    }
}

/// Copy an optional string.
pub fn duplicate_opt_str(o: &Option<String>) -> (r: Option<String>)
    ensures
        opt_str(r) == opt_str(*o),
{
    match o {
        Some(s) => Some(s.clone()),
        None => None,
    }
}

impl View for Settlement {
    type V = SettlementView;

    open spec fn view(&self) -> SettlementView {
        SettlementView {
            owner: self.id.owner@,
            service_id: self.id.service_id@,
            window_id: self.id.window_id@,
            gross_spent: self.gross_spent,
            operator_share: self.operator_share,
            protocol_fee: self.protocol_fee,
            reserve_locked: self.reserve_locked,
            status: self.status,
            evidence_hash: self.evidence_hash@,
            from_tx_id: self.from_tx_id,
            to_tx_id: self.to_tx_id,
            total_paid: self.total_paid,
            policy_scope_key: opt_str(self.policy_scope_key),
            policy_version: self.policy_version,
            dispute_window_secs: self.dispute_window_secs,
            finalized_at: self.finalized_at,
        }
    }
}

impl Duplicate for Settlement {
    fn duplicate(&self) -> (r: Self) {
        Settlement {
            id: self.id.duplicate_id(),
            gross_spent: self.gross_spent,
            operator_share: self.operator_share,
            protocol_fee: self.protocol_fee,
            reserve_locked: self.reserve_locked,
            status: self.status,
            evidence_hash: self.evidence_hash.clone(),
            from_tx_id: self.from_tx_id,
            to_tx_id: self.to_tx_id,
            total_paid: self.total_paid,
            policy_scope_key: duplicate_opt_str(&self.policy_scope_key),
            policy_version: self.policy_version,
            dispute_window_secs: self.dispute_window_secs,
            finalized_at: self.finalized_at,
        }
    }
}

/// Still owed to operators: `operator_share - total_paid` (0 when overpaid).
pub open spec fn payable_of(s: SettlementView) -> u64 {
    sat_sub(s.operator_share, s.total_paid)
}

/// Finalized or fully claimed.
pub open spec fn is_finalized_status(st: SettlementStatus) -> bool {
    st == SettlementStatus::Finalized || st == SettlementStatus::Claimed
}

/// A settlement after a payment of `amount` is recorded.
pub open spec fn add_paid_view(s: SettlementView, amount: u64) -> SettlementView {
    let to_add = if amount < payable_of(s) { amount } else { payable_of(s) };
    let paid = sat_add(s.total_paid, to_add);
    SettlementView {
        total_paid: paid,
        status: if paid >= s.operator_share { SettlementStatus::Claimed } else { s.status },
        ..s
    }
}

impl Settlement {
    /// A newly proposed settlement: nothing paid, no bound policy, not finalized.
    #[allow(clippy::too_many_arguments)]
    pub fn proposed(
        id: SettlementId,
        gross_spent: u64,
        operator_share: u64,
        protocol_fee: u64,
        reserve_locked: u64,
        evidence_hash: String,
        from_tx_id: u64,
        to_tx_id: u64,
    ) -> (s: Settlement)
        ensures
            s@ == (SettlementView {
                owner: id.owner@,
                service_id: id.service_id@,
                window_id: id.window_id@,
                gross_spent,
                operator_share,
                protocol_fee,
                reserve_locked,
                status: SettlementStatus::Proposed,
                evidence_hash: evidence_hash@,
                from_tx_id,
                to_tx_id,
                total_paid: 0,
                policy_scope_key: None,
                policy_version: None,
                dispute_window_secs: None,
                finalized_at: None,
            }),
    {
        Settlement {
            id,
            gross_spent,
            operator_share,
            protocol_fee,
            reserve_locked,
            status: SettlementStatus::Proposed,
            evidence_hash,
            from_tx_id,
            to_tx_id,
            total_paid: 0,
            policy_scope_key: None,
            policy_version: None,
            dispute_window_secs: None,
            finalized_at: None,
        }
    }

    /// Amount still payable to operators.
    pub fn payable(&self) -> (r: u64)
        ensures
            r == payable_of(self@),
    {
        self.operator_share.saturating_sub(self.total_paid)
    }

    pub fn finalize(&mut self)
        ensures
            final(self)@ == (SettlementView { status: SettlementStatus::Finalized, ..old(self)@ }),
    {
        self.status = SettlementStatus::Finalized;
    }

    pub fn mark_claimed(&mut self)
        ensures
            final(self)@ == (SettlementView { status: SettlementStatus::Claimed, ..old(self)@ }),
    {
        self.status = SettlementStatus::Claimed;
    }

    /// Record a payment, capped at what is still payable; fully paid means Claimed.
    pub fn add_paid(&mut self, amount: u64)
        ensures
            final(self)@ == add_paid_view(old(self)@, amount),
    {
        let remaining = self.operator_share.saturating_sub(self.total_paid);
        let to_add = if amount < remaining { amount } else { remaining };
        self.total_paid = self.total_paid.saturating_add(to_add);
        if self.total_paid >= self.operator_share {
            self.status = SettlementStatus::Claimed;
        }
    }

    /// Finalized or Claimed: payouts are allowed.
    pub fn is_finalized(&self) -> (b: bool)
        ensures
            b == is_finalized_status(self.status),
    {
        match self.status {
            SettlementStatus::Finalized | SettlementStatus::Claimed => true,
            _ => false,
        }
    }

    pub fn is_disputed(&self) -> (b: bool)
        ensures
            b == (self.status == SettlementStatus::Disputed),
    {
        match self.status {
            SettlementStatus::Disputed => true,
            _ => false,
        }
    }

    /// Back to Finalized after a dismissed dispute; other statuses are kept.
    pub fn reopen_after_dismissed(&mut self)
        ensures
            final(self)@ == (SettlementView {
                status: if old(self).status == SettlementStatus::Disputed {
                    SettlementStatus::Finalized
                } else {
                    old(self).status
                },
                ..old(self)@
            }),
    {
        if self.is_disputed() {
            self.status = SettlementStatus::Finalized;
        }
    }

    /// Freeze payouts.
    pub fn mark_disputed(&mut self)
        ensures
            final(self)@ == (SettlementView { status: SettlementStatus::Disputed, ..old(self)@ }),
    {
        self.status = SettlementStatus::Disputed;
    }

    /// Record the policy bound at proposal time.
    pub fn set_bound_policy(&mut self, scope_key: String, version: u64, dispute_window_secs: u64)
        ensures
            final(self)@ == (SettlementView {
                policy_scope_key: Some(scope_key@),
                policy_version: Some(version),
                dispute_window_secs: Some(dispute_window_secs),
                ..old(self)@
            }),
    {
        self.policy_scope_key = Some(scope_key);
        self.policy_version = Some(version);
        self.dispute_window_secs = Some(dispute_window_secs);
    }

    /// Record the finalization time.
    pub fn set_finalized_at(&mut self, t: u64)
        ensures
            final(self)@ == (SettlementView { finalized_at: Some(t), ..old(self)@ }),
    {
        self.finalized_at = Some(t);
    }
}

/// Claim identity: `(operator, settlement_key)`.
#[derive(Debug, Clone, PartialEq, Eq)]
pub struct ClaimId {
    pub operator: String,
    pub settlement_key: String,
}

impl ClaimId {
    pub fn new(operator: String, settlement_id: &SettlementId) -> (c: ClaimId)
        ensures
            c.operator@ == operator@,
            c.settlement_key@ == settlement_id.key_view(),
    {
        ClaimId { operator, settlement_key: settlement_id.key() }
    }

    /// The storage key `<operator>:<settlement_key>`.
    pub fn key(&self) -> (k: String)
        ensures
            k@ == self.operator@ + colon() + self.settlement_key@,
    {
        join_colon2(self.operator.as_str(), self.settlement_key.as_str())
    }
}

/// Claim aggregate.
#[derive(Debug, Clone, PartialEq, Eq)]
pub struct Claim {
    pub id: ClaimId,
    pub claim_amount: u64,
    pub status: ClaimStatus,
}

/// Abstract claim.
pub struct ClaimView {
    pub operator: Seq<char>,
    pub settlement_key: Seq<char>,
    pub claim_amount: u64,
    pub status: ClaimStatus,
}

impl View for Claim {
    type V = ClaimView;

    open spec fn view(&self) -> ClaimView {
        ClaimView {
            operator: self.id.operator@,
            settlement_key: self.id.settlement_key@,
            claim_amount: self.claim_amount,
            status: self.status,
        }
    }
}

impl Duplicate for Claim {
    fn duplicate(&self) -> (r: Self) {
        Claim {
            id: ClaimId { operator: self.id.operator.clone(), settlement_key: self.id.settlement_key.clone() },
            claim_amount: self.claim_amount,
            status: self.status,
        }
    }
}

impl Claim {
    pub fn pending(id: ClaimId, claim_amount: u64) -> (c: Claim)
        ensures
            c@ == (ClaimView {
                operator: id.operator@,
                settlement_key: id.settlement_key@,
                claim_amount,
                status: ClaimStatus::Pending,
            }),
    {
        Claim { id, claim_amount, status: ClaimStatus::Pending }
    }

    pub fn pay(&mut self)
        ensures
            final(self)@ == (ClaimView { status: ClaimStatus::Paid, ..old(self)@ }),
    {
        self.status = ClaimStatus::Paid;
    }

    pub fn reject(&mut self)
        ensures
            final(self)@ == (ClaimView { status: ClaimStatus::Rejected, ..old(self)@ }),
    {
        self.status = ClaimStatus::Rejected;
    }

    pub fn is_pending(&self) -> (b: bool)
        ensures
            b == (self.status == ClaimStatus::Pending),
    {
        match self.status {
            ClaimStatus::Pending => true,
            _ => false,
        }
    }
}

/// Dispute status.
#[derive(Debug, Clone, Copy, PartialEq, Eq, Structural)]
pub enum DisputeStatus {
    /// Opened; payouts frozen for the target settlement.
    Open,
    /// Closed in favour of the challenger.
    Upheld,
    /// Closed in favour of the settlement; payouts resume.
    Dismissed,
}

/// Dispute identity: the settlement key (one dispute per settlement).
#[derive(Debug, Clone, PartialEq, Eq)]
pub struct DisputeId {
    pub settlement_key: String,
}

impl DisputeId {
    pub fn new(settlement_id: &SettlementId) -> (d: DisputeId)
        ensures
            d.settlement_key@ == settlement_id.key_view(),
    {
        DisputeId { settlement_key: settlement_id.key() }
    }

    pub fn key(&self) -> (k: &str)
        ensures
            k@ == self.settlement_key@,
    {
        self.settlement_key.as_str()
    }
}

/// Replay evidence recorded when a dispute is resolved.
#[derive(Debug, Clone, PartialEq, Eq)]
pub struct ResolutionAudit {
    pub replay_hash: String,
    pub replay_summary: ReplaySummary,
}

/// Abstract resolution audit.
pub struct ResolutionAuditView {
    pub replay_hash: Seq<char>,
    pub replay_summary: ReplaySummary,
}

impl View for ResolutionAudit {
    type V = ResolutionAuditView;

    open spec fn view(&self) -> ResolutionAuditView {
        ResolutionAuditView { replay_hash: self.replay_hash@, replay_summary: self.replay_summary }
    }
}

impl Duplicate for ResolutionAudit {
    fn duplicate(&self) -> (r: Self) {
        ResolutionAudit { replay_hash: self.replay_hash.clone(), replay_summary: self.replay_summary.duplicate() }
    }
}

/// Dispute aggregate.
#[derive(Debug, Clone, PartialEq, Eq)]
pub struct Dispute {
    pub id: DisputeId,
    pub target_settlement_id: SettlementId,
    pub reason_code: String,
    pub evidence_hash: String,
    /// Epoch seconds when opened (0 when not used).
    pub opened_at: u64,
    pub status: DisputeStatus,
    /// Replay evidence, once resolved with evidence.
    pub resolution_audit: Option<ResolutionAudit>,
}

/// Abstract dispute.
pub struct DisputeView {
    pub settlement_key: Seq<char>,
    pub target_owner: Seq<char>,
    pub target_service_id: Seq<char>,
    pub target_window_id: Seq<char>,
    pub reason_code: Seq<char>,
    pub evidence_hash: Seq<char>,
    pub opened_at: u64,
    pub status: DisputeStatus,
    pub resolution_audit: Option<ResolutionAuditView>,
}

/// The view of an optional audit.
pub open spec fn opt_audit(o: Option<ResolutionAudit>) -> Option<ResolutionAuditView> {
    match o {
        Some(a) => Some(a@),
        None => None,
    }
}

impl View for Dispute {
    type V = DisputeView;

    open spec fn view(&self) -> DisputeView {
        DisputeView {
            settlement_key: self.id.settlement_key@,
            target_owner: self.target_settlement_id.owner@,
            target_service_id: self.target_settlement_id.service_id@,
            target_window_id: self.target_settlement_id.window_id@,
            reason_code: self.reason_code@,
            evidence_hash: self.evidence_hash@,
            opened_at: self.opened_at,
            status: self.status,
            resolution_audit: opt_audit(self.resolution_audit),
        }
    }
}

impl Duplicate for Dispute {
    fn duplicate(&self) -> (r: Self) {
        Dispute {
            id: DisputeId { settlement_key: self.id.settlement_key.clone() },
            target_settlement_id: self.target_settlement_id.duplicate_id(),
            reason_code: self.reason_code.clone(),
            evidence_hash: self.evidence_hash.clone(),
            opened_at: self.opened_at,
            status: self.status,
            resolution_audit: match &self.resolution_audit {
                Some(a) => Some(a.duplicate()),
                None => None,
            },
        }
    }
}

impl Dispute {
    /// A newly opened dispute on `target_settlement_id`.
    pub fn open(
        target_settlement_id: SettlementId,
        reason_code: String,
        evidence_hash: String,
        opened_at: u64,
    ) -> (d: Dispute)
        ensures
            d@ == (DisputeView {
                settlement_key: target_settlement_id.key_view(),
                target_owner: target_settlement_id.owner@,
                target_service_id: target_settlement_id.service_id@,
                target_window_id: target_settlement_id.window_id@,
                reason_code: reason_code@,
                evidence_hash: evidence_hash@,
                opened_at,
                status: DisputeStatus::Open,
                resolution_audit: None,
            }),
    {
        let id = DisputeId::new(&target_settlement_id);
        Dispute {
            id,
            target_settlement_id,
            reason_code,
            evidence_hash,
            opened_at,
            status: DisputeStatus::Open,
            resolution_audit: None,
        }
    }

    pub fn is_open(&self) -> (b: bool)
        ensures
            b == (self.status == DisputeStatus::Open),
    {
        match self.status {
            DisputeStatus::Open => true,
            _ => false,
        }
    }

    /// Close the dispute with a verdict (Upheld or Dismissed).
    pub fn resolve(&mut self, verdict: DisputeStatus)
        requires
            verdict == DisputeStatus::Upheld || verdict == DisputeStatus::Dismissed,
        ensures
            final(self)@ == (DisputeView { status: verdict, ..old(self)@ }),
    {
        self.status = verdict;
    }

    /// Record the replay evidence of the resolution.
    pub fn set_resolution_audit(&mut self, audit: ResolutionAudit)
        ensures
            final(self)@ == (DisputeView { resolution_audit: Some(audit@), ..old(self)@ }),
    {
        self.resolution_audit = Some(audit);
    }
}

} // verus!

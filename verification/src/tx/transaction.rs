//! Transactions and signed transactions.
use crate::evidence::ReplaySummary;
use crate::state::policy::{PolicyConfig, PolicyScope, PolicyScopeView};
use crate::state::settlement::opt_str;
use crate::error::Result;
use crate::table::Duplicate;
use crate::tx::encode::{put_signing_bytes, signing_bytes};
use vstd::prelude::*;

verus! {

/// Payload version 1: legacy canonical payload (signer, nonce, kind).
pub const PAYLOAD_VERSION_V1: u8 = 1;

/// Payload version 2: adds the delegation fields.
pub const PAYLOAD_VERSION_V2: u8 = 2;

/// Pricing model of a consumption.
#[derive(Debug, Clone, PartialEq, Eq)]
pub enum Pricing {
    /// Cost per unit: total = units * unit_price.
    UnitPrice(u64),
    /// Fixed total cost regardless of units.
    FixedCost(u64),
}

impl View for Pricing {
    type V = Pricing;

    open spec fn view(&self) -> Pricing {
        *self
    }
}

/// Verdict of a dispute resolution.
#[derive(Debug, Clone, Copy, PartialEq, Eq)]
pub enum DisputeVerdict {
    /// The challenger wins; the settlement stays blocked.
    Upheld,
    /// The settlement stands; payouts resume.
    Dismissed,
}

/// Domain commands.
#[derive(Debug, Clone, PartialEq, Eq)]
pub enum Transaction {
    /// Create new funds (authority only).
    Mint { to: String, amount: u64 },
    /// Open a meter for a service.
    OpenMeter { owner: String, service_id: String, deposit: u64 },
    /// Record usage and deduct its cost.
    Consume { owner: String, service_id: String, units: u64, pricing: Pricing },
    /// Close a meter and return its deposit.
    CloseMeter { owner: String, service_id: String },
    /// Revoke a delegation capability (owner signed).
    RevokeDelegation { owner: String, capability_id: String },
    /// Propose the settlement of a window.
    ProposeSettlement {
        owner: String,
        service_id: String,
        window_id: String,
        from_tx_id: u64,
        to_tx_id: u64,
        gross_spent: u64,
        operator_share: u64,
        protocol_fee: u64,
        reserve_locked: u64,
        evidence_hash: String,
    },
    /// Finalize a proposed settlement.
    FinalizeSettlement { owner: String, service_id: String, window_id: String },
    /// Claim part of the operator payable (operator signed).
    SubmitClaim { operator: String, owner: String, service_id: String, window_id: String, claim_amount: u64 },
    /// Pay a pending claim (authority signed).
    PayClaim { operator: String, owner: String, service_id: String, window_id: String },
    /// Open a dispute on a finalized settlement; freezes payouts.
    OpenDispute { owner: String, service_id: String, window_id: String, reason_code: String, evidence_hash: String },
    /// Resolve an open dispute with replay evidence.
    ResolveDispute {
        owner: String,
        service_id: String,
        window_id: String,
        verdict: DisputeVerdict,
        evidence_hash: String,
        replay_hash: String,
        replay_summary: ReplaySummary,
    },
    /// Publish a new policy version for a scope.
    PublishPolicyVersion { scope: PolicyScope, version: u64, effective_from_tx_id: u64, config: PolicyConfig },
    /// Mark a policy version as superseded.
    SupersedePolicyVersion { scope_key: String, version: u64 },
}

/// Abstract transaction.
pub enum TransactionView {
    Mint { to: Seq<char>, amount: u64 },
    OpenMeter { owner: Seq<char>, service_id: Seq<char>, deposit: u64 },
    Consume { owner: Seq<char>, service_id: Seq<char>, units: u64, pricing: Pricing },
    CloseMeter { owner: Seq<char>, service_id: Seq<char> },
    RevokeDelegation { owner: Seq<char>, capability_id: Seq<char> },
    ProposeSettlement {
        owner: Seq<char>,
        service_id: Seq<char>,
        window_id: Seq<char>,
        from_tx_id: u64,
        to_tx_id: u64,
        gross_spent: u64,
        operator_share: u64,
        protocol_fee: u64,
        reserve_locked: u64,
        evidence_hash: Seq<char>,
    },
    FinalizeSettlement { owner: Seq<char>, service_id: Seq<char>, window_id: Seq<char> },
    SubmitClaim { operator: Seq<char>, owner: Seq<char>, service_id: Seq<char>, window_id: Seq<char>, claim_amount: u64 },
    PayClaim { operator: Seq<char>, owner: Seq<char>, service_id: Seq<char>, window_id: Seq<char> },
    OpenDispute { owner: Seq<char>, service_id: Seq<char>, window_id: Seq<char>, reason_code: Seq<char>, evidence_hash: Seq<char> },
    ResolveDispute {
        owner: Seq<char>,
        service_id: Seq<char>,
        window_id: Seq<char>,
        verdict: DisputeVerdict,
        evidence_hash: Seq<char>,
        replay_hash: Seq<char>,
        replay_summary: ReplaySummary,
    },
    PublishPolicyVersion { scope: PolicyScopeView, version: u64, effective_from_tx_id: u64, config: PolicyConfig },
    SupersedePolicyVersion { scope_key: Seq<char>, version: u64 },
}

impl View for Transaction {
    type V = TransactionView;

    open spec fn view(&self) -> TransactionView {
        match self {
            Transaction::Mint { to, amount } => TransactionView::Mint { to: to@, amount: *amount },
            Transaction::OpenMeter { owner, service_id, deposit } => TransactionView::OpenMeter {
                owner: owner@,
                service_id: service_id@,
                deposit: *deposit,
            },
            Transaction::Consume { owner, service_id, units, pricing } => TransactionView::Consume {
                owner: owner@,
                service_id: service_id@,
                units: *units,
                pricing: *pricing,
            },
            Transaction::CloseMeter { owner, service_id } => TransactionView::CloseMeter {
                owner: owner@,
                service_id: service_id@,
            },
            Transaction::RevokeDelegation { owner, capability_id } => TransactionView::RevokeDelegation {
                owner: owner@,
                capability_id: capability_id@,
            },
            Transaction::ProposeSettlement {
                owner,
                service_id,
                window_id,
                from_tx_id,
                to_tx_id,
                gross_spent,
                operator_share,
                protocol_fee,
                reserve_locked,
                evidence_hash,
            } => TransactionView::ProposeSettlement {
                owner: owner@,
                service_id: service_id@,
                window_id: window_id@,
                from_tx_id: *from_tx_id,
                to_tx_id: *to_tx_id,
                gross_spent: *gross_spent,
                operator_share: *operator_share,
                protocol_fee: *protocol_fee,
                reserve_locked: *reserve_locked,
                evidence_hash: evidence_hash@,
            },
            Transaction::FinalizeSettlement { owner, service_id, window_id } => TransactionView::FinalizeSettlement {
                owner: owner@,
                service_id: service_id@,
                window_id: window_id@,
            },
            Transaction::SubmitClaim { operator, owner, service_id, window_id, claim_amount } => TransactionView::SubmitClaim {
                operator: operator@,
                owner: owner@,
                service_id: service_id@,
                window_id: window_id@,
                claim_amount: *claim_amount,
            },
            Transaction::PayClaim { operator, owner, service_id, window_id } => TransactionView::PayClaim {
                operator: operator@,
                owner: owner@,
                service_id: service_id@,
                window_id: window_id@,
            },
            Transaction::OpenDispute { owner, service_id, window_id, reason_code, evidence_hash } => TransactionView::OpenDispute {
                owner: owner@,
                service_id: service_id@,
                window_id: window_id@,
                reason_code: reason_code@,
                evidence_hash: evidence_hash@,
            },
            Transaction::ResolveDispute {
                owner,
                service_id,
                window_id,
                verdict,
                evidence_hash,
                replay_hash,
                replay_summary,
            } => TransactionView::ResolveDispute {
                owner: owner@,
                service_id: service_id@,
                window_id: window_id@,
                verdict: *verdict,
                evidence_hash: evidence_hash@,
                replay_hash: replay_hash@,
                replay_summary: *replay_summary,
            },
            Transaction::PublishPolicyVersion { scope, version, effective_from_tx_id, config } => TransactionView::PublishPolicyVersion {
                scope: scope@,
                version: *version,
                effective_from_tx_id: *effective_from_tx_id,
                config: *config,
            },
            Transaction::SupersedePolicyVersion { scope_key, version } => TransactionView::SupersedePolicyVersion {
                scope_key: scope_key@,
                version: *version,
            },
        }
    }
}

/// Signed transaction: the command, its signer and sequence number, the delegation fields
/// of payload version 2, and the signature.
#[derive(Debug, Clone, PartialEq, Eq)]
pub struct SignedTx {
    /// Absent or 1: payload v1; 2: payload v2 (required for delegated Consume).
    pub payload_version: Option<u8>,
    pub signer: String,
    pub nonce: u64,
    /// The owner whose nonce a delegated Consume uses.
    pub nonce_account: Option<String>,
    /// Reference time of a delegated Consume.
    pub valid_at: Option<u64>,
    /// Delegation proof bytes of a delegated Consume.
    pub delegation_proof: Option<Vec<u8>>,
    pub kind: Transaction,
    /// Ed25519 signature over the canonical payload; `None` for unsigned legacy transactions.
    pub signature: Option<Vec<u8>>,
}

/// Abstract signed transaction.
pub struct SignedTxView {
    pub payload_version: Option<u8>,
    pub signer: Seq<char>,
    pub nonce: u64,
    pub nonce_account: Option<Seq<char>>,
    pub valid_at: Option<u64>,
    pub delegation_proof: Option<Seq<u8>>,
    pub kind: TransactionView,
    pub signature: Option<Seq<u8>>,
}

/// The view of optional bytes.
pub open spec fn opt_bytes(o: Option<Vec<u8>>) -> Option<Seq<u8>> {
    match o {
        Some(b) => Some(b@),
        None => None,
    }
}

impl View for SignedTx {
    type V = SignedTxView;

    open spec fn view(&self) -> SignedTxView {
        SignedTxView {
            payload_version: self.payload_version,
            signer: self.signer@,
            nonce: self.nonce,
            nonce_account: opt_str(self.nonce_account),
            valid_at: self.valid_at,
            delegation_proof: opt_bytes(self.delegation_proof),
            kind: self.kind@,
            signature: opt_bytes(self.signature),
        }
    }
}

/// Payload version 2 when the field says 2, else version 1.
pub open spec fn effective_version(t: SignedTxView) -> u8 {
    if t.payload_version == Some(2u8) {
        PAYLOAD_VERSION_V2
    } else {
        PAYLOAD_VERSION_V1
    }
}

/// A Consume whose signer is not its owner, or that carries a delegation proof.
pub open spec fn is_delegated_consume_view(t: SignedTxView) -> bool {
    match t.kind {
        TransactionView::Consume { owner, .. } => t.signer != owner || t.delegation_proof is Some,
        _ => false,
    }
}

/// Copy a byte vector.
pub fn copy_bytes(b: &Vec<u8>) -> (r: Vec<u8>)
    ensures
        r@ == b@,
{
    let mut r: Vec<u8> = Vec::new();
    let mut i: usize = 0;
    while i < b.len()
        invariant
            i <= b@.len(),
            r@ == b@.take(i as int),
        decreases b@.len() - i,
    {
        r.push(b[i]);
        proof {
            assert(r@ =~= b@.take(i + 1));
        }
        i = i + 1;
    }
    proof {
        assert(b@.take(i as int) =~= b@);
    }
    r
}

impl Duplicate for Transaction {
    fn duplicate(&self) -> (r: Self) {
        match self {
            Transaction::Mint { to, amount } => Transaction::Mint { to: to.clone(), amount: *amount },
            Transaction::OpenMeter { owner, service_id, deposit } => Transaction::OpenMeter {
                owner: owner.clone(),
                service_id: service_id.clone(),
                deposit: *deposit,
            },
            Transaction::Consume { owner, service_id, units, pricing } => Transaction::Consume {
                owner: owner.clone(),
                service_id: service_id.clone(),
                units: *units,
                pricing: match pricing {
                    Pricing::UnitPrice(p) => Pricing::UnitPrice(*p),
                    Pricing::FixedCost(c) => Pricing::FixedCost(*c),
                },
            },
            Transaction::CloseMeter { owner, service_id } => Transaction::CloseMeter {
                owner: owner.clone(),
                service_id: service_id.clone(),
            },
            Transaction::RevokeDelegation { owner, capability_id } => Transaction::RevokeDelegation {
                owner: owner.clone(),
                capability_id: capability_id.clone(),
            },
            Transaction::ProposeSettlement {
                owner,
                service_id,
                window_id,
                from_tx_id,
                to_tx_id,
                gross_spent,
                operator_share,
                protocol_fee,
                reserve_locked,
                evidence_hash,
            } => Transaction::ProposeSettlement {
                owner: owner.clone(),
                service_id: service_id.clone(),
                window_id: window_id.clone(),
                from_tx_id: *from_tx_id,
                to_tx_id: *to_tx_id,
                gross_spent: *gross_spent,
                operator_share: *operator_share,
                protocol_fee: *protocol_fee,
                reserve_locked: *reserve_locked,
                evidence_hash: evidence_hash.clone(),
            },
            Transaction::FinalizeSettlement { owner, service_id, window_id } => Transaction::FinalizeSettlement {
                owner: owner.clone(),
                service_id: service_id.clone(),
                window_id: window_id.clone(),
            },
            Transaction::SubmitClaim { operator, owner, service_id, window_id, claim_amount } => Transaction::SubmitClaim {
                operator: operator.clone(),
                owner: owner.clone(),
                service_id: service_id.clone(),
                window_id: window_id.clone(),
                claim_amount: *claim_amount,
            },
            Transaction::PayClaim { operator, owner, service_id, window_id } => Transaction::PayClaim {
                operator: operator.clone(),
                owner: owner.clone(),
                service_id: service_id.clone(),
                window_id: window_id.clone(),
            },
            Transaction::OpenDispute { owner, service_id, window_id, reason_code, evidence_hash } => Transaction::OpenDispute {
                owner: owner.clone(),
                service_id: service_id.clone(),
                window_id: window_id.clone(),
                reason_code: reason_code.clone(),
                evidence_hash: evidence_hash.clone(),
            },
            Transaction::ResolveDispute {
                owner,
                service_id,
                window_id,
                verdict,
                evidence_hash,
                replay_hash,
                replay_summary,
            } => Transaction::ResolveDispute {
                owner: owner.clone(),
                service_id: service_id.clone(),
                window_id: window_id.clone(),
                verdict: *verdict,
                evidence_hash: evidence_hash.clone(),
                replay_hash: replay_hash.clone(),
                replay_summary: replay_summary.duplicate(),
            },
            Transaction::PublishPolicyVersion { scope, version, effective_from_tx_id, config } => Transaction::PublishPolicyVersion {
                scope: scope.duplicate(),
                version: *version,
                effective_from_tx_id: *effective_from_tx_id,
                config: config.duplicate(),
            },
            Transaction::SupersedePolicyVersion { scope_key, version } => Transaction::SupersedePolicyVersion {
                scope_key: scope_key.clone(),
                version: *version,
            },
        }
    }
}

impl Duplicate for SignedTx {
    fn duplicate(&self) -> (r: Self) {
        SignedTx {
            payload_version: self.payload_version,
            signer: self.signer.clone(),
            nonce: self.nonce,
            nonce_account: match &self.nonce_account {
                Some(a) => Some(a.clone()),
                None => None,
            },
            valid_at: self.valid_at,
            delegation_proof: match &self.delegation_proof {
                Some(p) => Some(copy_bytes(p)),
                None => None,
            },
            kind: self.kind.duplicate(),
            signature: match &self.signature {
                Some(s) => Some(copy_bytes(s)),
                None => None,
            },
        }
    }
}

impl SignedTx {
    /// An unsigned v1 transaction: no delegation fields, no signature.
    pub fn new(signer: String, nonce: u64, kind: Transaction) -> (t: SignedTx)
        ensures
            t@ == (SignedTxView {
                payload_version: None,
                signer: signer@,
                nonce,
                nonce_account: None,
                valid_at: None,
                delegation_proof: None,
                kind: kind@,
                signature: None,
            }),
    {
        SignedTx {
            payload_version: None,
            signer,
            nonce,
            nonce_account: None,
            valid_at: None,
            delegation_proof: None,
            kind,
            signature: None,
        }
    }

    /// True for a Consume whose signer differs from its owner or that carries a proof.
    pub fn is_delegated_consume(&self) -> (b: bool)
        ensures
            b == is_delegated_consume_view(self@),
    {
        match &self.kind {
            Transaction::Consume { owner, .. } => self.signer != *owner || self.delegation_proof.is_some(),
            _ => false,
        }
    }

    /// Payload version 2 when `payload_version == Some(2)`, else 1.
    pub fn effective_payload_version(&self) -> (v: u8)
        ensures
            v == effective_version(self@),
    {
        match self.payload_version {
            Some(2) => PAYLOAD_VERSION_V2,
            _ => PAYLOAD_VERSION_V1,
        }
    }

    /// The bytes a signature over this transaction covers: the version 1 payload
    /// (signer, nonce, command) or, for payload version 2, the version 2 payload with the
    /// delegation fields. Never fails.
    pub fn message_to_sign(&self) -> (r: Result<Vec<u8>>)
        ensures
            r matches Ok(b) && b@ == signing_bytes(self@),
    {
        let mut out: Vec<u8> = Vec::new();
        put_signing_bytes(&mut out, self);
        proof {
            assert(out@ =~= signing_bytes(self@));
        }
        Ok(out)
    }
}

} // verus!

//! Canonical bytes of transactions: what is signed, hashed and written to the log.
use crate::evidence::ReplaySummary;
use crate::state::policy::{PolicyConfig, PolicyScope, PolicyScopeView, ReservePolicy};
use crate::tx::transaction::{
    effective_version, DisputeVerdict, Pricing, SignedTx, SignedTxView, Transaction,
    TransactionView, PAYLOAD_VERSION_V2,
};
use crate::wire::{
    enc_opt_bytes, enc_opt_str, enc_opt_u64, enc_opt_u8, enc_str, enc_u16, enc_u32, enc_u64,
    put_opt_bytes, put_opt_str, put_opt_u64, put_opt_u8, put_str, put_u16, put_u32, put_u64,
};
use vstd::prelude::*;

verus! {

/// Canonical bytes of a pricing model.
pub open spec fn enc_pricing(p: Pricing) -> Seq<u8> {
    match p {
        Pricing::UnitPrice(x) => enc_u32(0u32) + enc_u64(x),
        Pricing::FixedCost(x) => enc_u32(1u32) + enc_u64(x),
    }
}

/// Canonical bytes of a verdict.
pub open spec fn enc_verdict(v: DisputeVerdict) -> Seq<u8> {
    match v {
        DisputeVerdict::Upheld => enc_u32(0u32),
        DisputeVerdict::Dismissed => enc_u32(1u32),
    }
}

/// Canonical bytes of a replay summary: its seven numbers in order.
pub open spec fn enc_summary(s: ReplaySummary) -> Seq<u8> {
    enc_u64(s.from_tx_id) + enc_u64(s.to_tx_id) + enc_u64(s.tx_count) + enc_u64(s.gross_spent)
        + enc_u64(s.operator_share) + enc_u64(s.protocol_fee) + enc_u64(s.reserve_locked)
}

/// Canonical bytes of a policy scope.
pub open spec fn enc_scope(s: PolicyScopeView) -> Seq<u8> {
    match s {
        PolicyScopeView::Global => enc_u32(0u32),
        PolicyScopeView::Owner { owner } => enc_u32(1u32) + enc_str(owner),
        PolicyScopeView::OwnerService { owner, service_id } => enc_u32(2u32) + enc_str(owner)
            + enc_str(service_id),
    }
}

/// Canonical bytes of a policy configuration.
pub open spec fn enc_config(c: PolicyConfig) -> Seq<u8> {
    enc_u16(c.fee_policy.operator_share_bps) + enc_u16(c.fee_policy.protocol_fee_bps) + match c.reserve_policy {
        ReservePolicy::NoReserve => enc_u32(0u32),
        ReservePolicy::Fixed { amount } => enc_u32(1u32) + enc_u64(amount),
        ReservePolicy::Bps { reserve_bps } => enc_u32(2u32) + enc_u16(reserve_bps),
    } + enc_u64(c.dispute_policy.dispute_window_secs)
}

pub fn put_pricing(out: &mut Vec<u8>, p: &Pricing)
    ensures
        final(out)@ == old(out)@ + enc_pricing(*p),
{
    match p {
        Pricing::UnitPrice(x) => {
            put_u32(out, 0u32);
            put_u64(out, *x);
        },
        Pricing::FixedCost(x) => {
            put_u32(out, 1u32);
            put_u64(out, *x);
        },
    }
    proof {
        assert(final(out)@ =~= old(out)@ + enc_pricing(*p));
    }
}

pub fn put_verdict(out: &mut Vec<u8>, v: DisputeVerdict)
    ensures
        final(out)@ == old(out)@ + enc_verdict(v),
{
    match v {
        DisputeVerdict::Upheld => put_u32(out, 0u32),
        DisputeVerdict::Dismissed => put_u32(out, 1u32),
    }
}

pub fn put_summary(out: &mut Vec<u8>, s: &ReplaySummary)
    ensures
        final(out)@ == old(out)@ + enc_summary(*s),
{
    put_u64(out, s.from_tx_id);
    put_u64(out, s.to_tx_id);
    put_u64(out, s.tx_count);
    put_u64(out, s.gross_spent);
    put_u64(out, s.operator_share);
    put_u64(out, s.protocol_fee);
    put_u64(out, s.reserve_locked);
    proof {
        assert(final(out)@ =~= old(out)@ + enc_summary(*s));
    }
}

pub fn put_scope(out: &mut Vec<u8>, s: &PolicyScope)
    ensures
        final(out)@ == old(out)@ + enc_scope(s@),
{
    match s {
        PolicyScope::Global => put_u32(out, 0u32),
        PolicyScope::Owner { owner } => {
            put_u32(out, 1u32);
            put_str(out, owner.as_str());
        },
        PolicyScope::OwnerService { owner, service_id } => {
            put_u32(out, 2u32);
            put_str(out, owner.as_str());
            put_str(out, service_id.as_str());
        },
    }
    proof {
        assert(final(out)@ =~= old(out)@ + enc_scope(s@));
    }
}

pub fn put_config(out: &mut Vec<u8>, c: &PolicyConfig)
    ensures
        final(out)@ == old(out)@ + enc_config(*c),
{
    put_u16(out, c.fee_policy.operator_share_bps);
    put_u16(out, c.fee_policy.protocol_fee_bps);
    match &c.reserve_policy {
        ReservePolicy::NoReserve => put_u32(out, 0u32),
        ReservePolicy::Fixed { amount } => {
            put_u32(out, 1u32);
            put_u64(out, *amount);
        },
        ReservePolicy::Bps { reserve_bps } => {
            put_u32(out, 2u32);
            put_u16(out, *reserve_bps);
        },
    }
    put_u64(out, c.dispute_policy.dispute_window_secs);
    proof {
        assert(final(out)@ =~= old(out)@ + enc_config(*c));
    }
}

/// Canonical bytes of a transaction: the variant index, then the fields in order.
pub open spec fn enc_tx(t: TransactionView) -> Seq<u8> {
    match t {
        TransactionView::Mint { to, amount } => enc_u32(0u32) + enc_str(to) + enc_u64(amount),
        TransactionView::OpenMeter { owner, service_id, deposit } => enc_u32(1u32) + enc_str(owner) + enc_str(service_id) + enc_u64(deposit),
        TransactionView::Consume { owner, service_id, units, pricing } => enc_u32(2u32) + enc_str(owner) + enc_str(service_id) + enc_u64(units) + enc_pricing(pricing),
        TransactionView::CloseMeter { owner, service_id } => enc_u32(3u32) + enc_str(owner) + enc_str(service_id),
        TransactionView::RevokeDelegation { owner, capability_id } => enc_u32(4u32) + enc_str(owner) + enc_str(capability_id),
        TransactionView::ProposeSettlement { owner, service_id, window_id, from_tx_id, to_tx_id, gross_spent, operator_share, protocol_fee, reserve_locked, evidence_hash } => enc_u32(5u32) + enc_str(owner) + enc_str(service_id) + enc_str(window_id) + enc_u64(from_tx_id) + enc_u64(to_tx_id) + enc_u64(gross_spent) + enc_u64(operator_share) + enc_u64(protocol_fee) + enc_u64(reserve_locked) + enc_str(evidence_hash),
        TransactionView::FinalizeSettlement { owner, service_id, window_id } => enc_u32(6u32) + enc_str(owner) + enc_str(service_id) + enc_str(window_id),
        TransactionView::SubmitClaim { operator, owner, service_id, window_id, claim_amount } => enc_u32(7u32) + enc_str(operator) + enc_str(owner) + enc_str(service_id) + enc_str(window_id) + enc_u64(claim_amount),
        TransactionView::PayClaim { operator, owner, service_id, window_id } => enc_u32(8u32) + enc_str(operator) + enc_str(owner) + enc_str(service_id) + enc_str(window_id),
        TransactionView::OpenDispute { owner, service_id, window_id, reason_code, evidence_hash } => enc_u32(9u32) + enc_str(owner) + enc_str(service_id) + enc_str(window_id) + enc_str(reason_code) + enc_str(evidence_hash),
        TransactionView::ResolveDispute { owner, service_id, window_id, verdict, evidence_hash, replay_hash, replay_summary } => enc_u32(10u32) + enc_str(owner) + enc_str(service_id) + enc_str(window_id) + enc_verdict(verdict) + enc_str(evidence_hash) + enc_str(replay_hash) + enc_summary(replay_summary),
        TransactionView::PublishPolicyVersion { scope, version, effective_from_tx_id, config } => enc_u32(11u32) + enc_scope(scope) + enc_u64(version) + enc_u64(effective_from_tx_id) + enc_config(config),
        TransactionView::SupersedePolicyVersion { scope_key, version } => enc_u32(12u32) + enc_str(scope_key) + enc_u64(version),
    }
}

/// Append the canonical bytes of a transaction.
pub fn put_tx(out: &mut Vec<u8>, t: &Transaction)
    ensures
        final(out)@ == old(out)@ + enc_tx(t@),
{
    let mut v = match t {
        Transaction::Mint { to, amount } => {
            let mut v: Vec<u8> = Vec::new();
            put_u32(&mut v, 0u32);
            proof {
                assert(v@ =~= enc_u32(0u32));
            }
            put_str(&mut v, to.as_str());
            put_u64(&mut v, *amount);
            v
        },
        Transaction::OpenMeter { owner, service_id, deposit } => {
            let mut v: Vec<u8> = Vec::new();
            put_u32(&mut v, 1u32);
            proof {
                assert(v@ =~= enc_u32(1u32));
            }
            put_str(&mut v, owner.as_str());
            put_str(&mut v, service_id.as_str());
            put_u64(&mut v, *deposit);
            v
        },
        Transaction::Consume { owner, service_id, units, pricing } => {
            let mut v: Vec<u8> = Vec::new();
            put_u32(&mut v, 2u32);
            proof {
                assert(v@ =~= enc_u32(2u32));
            }
            put_str(&mut v, owner.as_str());
            put_str(&mut v, service_id.as_str());
            put_u64(&mut v, *units);
            put_pricing(&mut v, pricing);
            v
        },
        Transaction::CloseMeter { owner, service_id } => {
            let mut v: Vec<u8> = Vec::new();
            put_u32(&mut v, 3u32);
            proof {
                assert(v@ =~= enc_u32(3u32));
            }
            put_str(&mut v, owner.as_str());
            put_str(&mut v, service_id.as_str());
            v
        },
        Transaction::RevokeDelegation { owner, capability_id } => {
            let mut v: Vec<u8> = Vec::new();
            put_u32(&mut v, 4u32);
            proof {
                assert(v@ =~= enc_u32(4u32));
            }
            put_str(&mut v, owner.as_str());
            put_str(&mut v, capability_id.as_str());
            v
        },
        Transaction::ProposeSettlement { owner, service_id, window_id, from_tx_id, to_tx_id, gross_spent, operator_share, protocol_fee, reserve_locked, evidence_hash } => {
            let mut v: Vec<u8> = Vec::new();
            put_u32(&mut v, 5u32);
            proof {
                assert(v@ =~= enc_u32(5u32));
            }
            put_str(&mut v, owner.as_str());
            put_str(&mut v, service_id.as_str());
            put_str(&mut v, window_id.as_str());
            put_u64(&mut v, *from_tx_id);
            put_u64(&mut v, *to_tx_id);
            put_u64(&mut v, *gross_spent);
            put_u64(&mut v, *operator_share);
            put_u64(&mut v, *protocol_fee);
            put_u64(&mut v, *reserve_locked);
            put_str(&mut v, evidence_hash.as_str());
            v
        },
        Transaction::FinalizeSettlement { owner, service_id, window_id } => {
            let mut v: Vec<u8> = Vec::new();
            put_u32(&mut v, 6u32);
            proof {
                assert(v@ =~= enc_u32(6u32));
            }
            put_str(&mut v, owner.as_str());
            put_str(&mut v, service_id.as_str());
            put_str(&mut v, window_id.as_str());
            v
        },
        Transaction::SubmitClaim { operator, owner, service_id, window_id, claim_amount } => {
            let mut v: Vec<u8> = Vec::new();
            put_u32(&mut v, 7u32);
            proof {
                assert(v@ =~= enc_u32(7u32));
            }
            put_str(&mut v, operator.as_str());
            put_str(&mut v, owner.as_str());
            put_str(&mut v, service_id.as_str());
            put_str(&mut v, window_id.as_str());
            put_u64(&mut v, *claim_amount);
            v
        },
        Transaction::PayClaim { operator, owner, service_id, window_id } => {
            let mut v: Vec<u8> = Vec::new();
            put_u32(&mut v, 8u32);
            proof {
                assert(v@ =~= enc_u32(8u32));
            }
            put_str(&mut v, operator.as_str());
            put_str(&mut v, owner.as_str());
            put_str(&mut v, service_id.as_str());
            put_str(&mut v, window_id.as_str());
            v
        },
        Transaction::OpenDispute { owner, service_id, window_id, reason_code, evidence_hash } => {
            let mut v: Vec<u8> = Vec::new();
            put_u32(&mut v, 9u32);
            proof {
                assert(v@ =~= enc_u32(9u32));
            }
            put_str(&mut v, owner.as_str());
            put_str(&mut v, service_id.as_str());
            put_str(&mut v, window_id.as_str());
            put_str(&mut v, reason_code.as_str());
            put_str(&mut v, evidence_hash.as_str());
            v
        },
        Transaction::ResolveDispute { owner, service_id, window_id, verdict, evidence_hash, replay_hash, replay_summary } => {
            let mut v: Vec<u8> = Vec::new();
            put_u32(&mut v, 10u32);
            proof {
                assert(v@ =~= enc_u32(10u32));
            }
            put_str(&mut v, owner.as_str());
            put_str(&mut v, service_id.as_str());
            put_str(&mut v, window_id.as_str());
            put_verdict(&mut v, *verdict);
            put_str(&mut v, evidence_hash.as_str());
            put_str(&mut v, replay_hash.as_str());
            put_summary(&mut v, replay_summary);
            v
        },
        Transaction::PublishPolicyVersion { scope, version, effective_from_tx_id, config } => {
            let mut v: Vec<u8> = Vec::new();
            put_u32(&mut v, 11u32);
            proof {
                assert(v@ =~= enc_u32(11u32));
            }
            put_scope(&mut v, scope);
            put_u64(&mut v, *version);
            put_u64(&mut v, *effective_from_tx_id);
            put_config(&mut v, config);
            v
        },
        Transaction::SupersedePolicyVersion { scope_key, version } => {
            let mut v: Vec<u8> = Vec::new();
            put_u32(&mut v, 12u32);
            proof {
                assert(v@ =~= enc_u32(12u32));
            }
            put_str(&mut v, scope_key.as_str());
            put_u64(&mut v, *version);
            v
        },
    };
    out.append(&mut v);
}

/// Version 1 signing payload: signer, nonce, command.
pub open spec fn enc_payload_v1(t: SignedTxView) -> Seq<u8> {
    enc_str(t.signer) + enc_u64(t.nonce) + enc_tx(t.kind)
}

/// Version 2 signing payload: the version byte, signer, nonce, the delegation fields, command.
pub open spec fn enc_payload_v2(t: SignedTxView) -> Seq<u8> {
    seq![PAYLOAD_VERSION_V2] + enc_str(t.signer) + enc_u64(t.nonce) + enc_opt_str(t.nonce_account)
        + enc_opt_u64(t.valid_at) + enc_opt_bytes(t.delegation_proof) + enc_tx(t.kind)
}

/// The bytes a transaction's signature covers, by its effective payload version.
pub open spec fn signing_bytes(t: SignedTxView) -> Seq<u8> {
    if effective_version(t) == PAYLOAD_VERSION_V2 {
        enc_payload_v2(t)
    } else {
        enc_payload_v1(t)
    }
}

/// Canonical bytes of a whole signed transaction, as written to the log.
pub open spec fn enc_signed_tx(t: SignedTxView) -> Seq<u8> {
    enc_opt_u8(t.payload_version) + enc_str(t.signer) + enc_u64(t.nonce) + enc_opt_str(
        t.nonce_account,
    ) + enc_opt_u64(t.valid_at) + enc_opt_bytes(t.delegation_proof) + enc_tx(t.kind)
        + enc_opt_bytes(t.signature)
}

/// Append the bytes a transaction's signature covers.
pub fn put_signing_bytes(out: &mut Vec<u8>, t: &SignedTx)
    ensures
        final(out)@ == old(out)@ + signing_bytes(t@),
{
    if t.effective_payload_version() == PAYLOAD_VERSION_V2 {
        out.push(PAYLOAD_VERSION_V2);
        put_str(out, t.signer.as_str());
        put_u64(out, t.nonce);
        put_opt_str(out, &t.nonce_account);
        put_opt_u64(out, t.valid_at);
        put_opt_bytes(out, &t.delegation_proof);
        put_tx(out, &t.kind);
        proof {
            assert(final(out)@ =~= old(out)@ + enc_payload_v2(t@));
        }
    } else {
        put_str(out, t.signer.as_str());
        put_u64(out, t.nonce);
        put_tx(out, &t.kind);
        proof {
            assert(final(out)@ =~= old(out)@ + enc_payload_v1(t@));
        }
    }
}

/// Append the canonical bytes of a signed transaction.
pub fn put_signed_tx(out: &mut Vec<u8>, t: &SignedTx)
    ensures
        final(out)@ == old(out)@ + enc_signed_tx(t@),
{
    let mut v: Vec<u8> = Vec::new();
    put_opt_u8(&mut v, t.payload_version);
    proof {
        assert(v@ =~= enc_opt_u8(t.payload_version));
    }
    put_str(&mut v, t.signer.as_str());
    put_u64(&mut v, t.nonce);
    put_opt_str(&mut v, &t.nonce_account);
    put_opt_u64(&mut v, t.valid_at);
    put_opt_bytes(&mut v, &t.delegation_proof);
    put_tx(&mut v, &t.kind);
    put_opt_bytes(&mut v, &t.signature);
    out.append(&mut v);
}

/// Canonical bytes of a signed transaction.
pub fn signed_tx_bytes(t: &SignedTx) -> (r: Vec<u8>)
    ensures
        r@ == enc_signed_tx(t@),
{
    let mut out: Vec<u8> = Vec::new();
    put_signed_tx(&mut out, t);
    proof {
        assert(out@ =~= enc_signed_tx(t@));
    }
    out
}

} // verus!

//! Evidence and replay records for settlement disputes.
use crate::encoding::{hex_encode, hex_text, lemma_hex_text_lower, sha256, sha256_digest, to_lowercase};
use crate::error::{Error, ErrorKind, Result};
use crate::state::account::sat_sub;
use crate::table::Duplicate;
use crate::tx::encode::{enc_signed_tx, enc_summary, put_signed_tx, put_summary};
use crate::tx::transaction::{SignedTx, SignedTxView};
use crate::wire::{enc_str, enc_u16, enc_u64, put_str, put_u16, put_u64};
use vstd::prelude::*;
use vstd::string::*;
use vstd::utf8::*;

verus! {

/// SHA-256 of `data` as lowercase hex text.
pub open spec fn evidence_hash_of(data: Seq<u8>) -> Seq<char> {
    hex_text(sha256(data))
}

/// A lowercase hexadecimal digit.
pub open spec fn is_lower_hex_digit(c: char) -> bool {
    ('0' <= c && c <= '9') || ('a' <= c && c <= 'f')
}

/// Text made of lowercase hexadecimal digits only.
pub open spec fn is_lower_hex(t: Seq<char>) -> bool {
    forall|i: int| 0 <= i < t.len() ==> is_lower_hex_digit(#[trigger] t[i])
}

/// Hex text is lowercase hexadecimal.
proof fn lemma_hex_text_is_lower_hex(b: Seq<u8>)
    ensures
        is_lower_hex(hex_text(b)),
{
    let h = hex_text(b);
    assert forall|i: int| 0 <= i < h.len() implies is_lower_hex_digit(#[trigger] h[i]) by {
        let n: nat = if i % 2 == 0 { (b[i / 2] / 16) as nat } else { (b[i / 2] % 16) as nat };
        assert(n < 16);
        assert(h[i] == crate::encoding::hex_digit(n));
    }
}

/// SHA-256 of `data`, lowercase hex (64 characters). Evidence hashes and capability ids.
pub fn evidence_hash(data: &[u8]) -> (r: String)
    ensures
        r@ == evidence_hash_of(data@),
        r@.len() == 64,
        is_lower_hex(r@),
{
    let digest = sha256_digest(data);
    let h = hex_encode(digest.as_slice());
    proof {
        lemma_hex_text_lower(digest@);
        lemma_hex_text_is_lower_hex(digest@);
    }
    to_lowercase(h.as_str())
}

/// Concatenated canonical bytes of a transaction slice.
pub open spec fn txs_bytes(txs: Seq<SignedTxView>) -> Seq<u8>
    decreases txs.len(),
{
    if txs.len() == 0 {
        Seq::empty()
    } else {
        txs_bytes(txs.drop_last()) + enc_signed_tx(txs.last())
    }
}

/// Hash of a transaction slice: the evidence hash of its concatenated canonical bytes.
pub fn tx_slice_hash(txs: &[SignedTx]) -> (r: String)
    ensures
        r@ == evidence_hash_of(txs_bytes(txs@.map_values(|t: SignedTx| t@))),
{
    let mut bytes: Vec<u8> = Vec::new();
    let mut i: usize = 0;
    while i < txs.len()
        invariant
            i <= txs@.len(),
            bytes@ == txs_bytes(txs@.take(i as int).map_values(|t: SignedTx| t@)),
        decreases txs@.len() - i,
    {
        put_signed_tx(&mut bytes, &txs[i]);
        proof {
            let next = txs@.take(i + 1).map_values(|t: SignedTx| t@);
            assert(next.drop_last() =~= txs@.take(i as int).map_values(|t: SignedTx| t@));
            assert(next.last() == txs@[i as int]@);
        }
        i = i + 1;
    }
    proof {
        assert(txs@.take(i as int) =~= txs@);
    }
    evidence_hash(bytes.as_slice())
}

/// Schema version of evidence bundles written by this library.
pub const CURRENT_EVIDENCE_SCHEMA_VERSION: u16 = 1;

/// Version of the replay/hash protocol that bundles must match.
pub const REPLAY_PROTOCOL_VERSION: u16 = 1;

/// Deterministic totals of a replayed settlement window.
#[derive(Debug, Clone, PartialEq, Eq)]
pub struct ReplaySummary {
    pub from_tx_id: u64,
    pub to_tx_id: u64,
    pub tx_count: u64,
    pub gross_spent: u64,
    pub operator_share: u64,
    pub protocol_fee: u64,
    pub reserve_locked: u64,
}

impl View for ReplaySummary {
    type V = ReplaySummary;

    open spec fn view(&self) -> ReplaySummary {
        *self
    }
}

impl Duplicate for ReplaySummary {
    fn duplicate(&self) -> (r: Self) {
        ReplaySummary {
            from_tx_id: self.from_tx_id,
            to_tx_id: self.to_tx_id,
            tx_count: self.tx_count,
            gross_spent: self.gross_spent,
            operator_share: self.operator_share,
            protocol_fee: self.protocol_fee,
            reserve_locked: self.reserve_locked,
        }
    }
}

impl ReplaySummary {
    /// Canonical bytes of the summary.
    pub fn canonical_bytes(&self) -> (r: Vec<u8>)
        ensures
            r@ == enc_summary(*self),
    {
        let mut out: Vec<u8> = Vec::new();
        put_summary(&mut out, self);
        proof {
            assert(out@ =~= enc_summary(*self));
        }
        out
    }

    /// Deterministic hash of the summary: the evidence hash of its canonical bytes.
    pub fn replay_hash(&self) -> (r: String)
        ensures
            r@ == evidence_hash_of(enc_summary(*self)),
            r@.len() == 64,
            is_lower_hex(r@),
    {
        let b = self.canonical_bytes();
        evidence_hash(b.as_slice())
    }

    pub fn new(
        from_tx_id: u64,
        to_tx_id: u64,
        tx_count: u64,
        gross_spent: u64,
        operator_share: u64,
        protocol_fee: u64,
        reserve_locked: u64,
    ) -> (s: ReplaySummary)
        ensures
            s == (ReplaySummary {
                from_tx_id,
                to_tx_id,
                tx_count,
                gross_spent,
                operator_share,
                protocol_fee,
                reserve_locked,
            }),
    {
        ReplaySummary {
            from_tx_id,
            to_tx_id,
            tx_count,
            gross_spent,
            operator_share,
            protocol_fee,
            reserve_locked,
        }
    }
}

/// Reference data for a replay-justified dispute resolution.
#[derive(Debug, Clone, PartialEq, Eq)]
pub struct EvidenceBundle {
    pub schema_version: u16,
    pub replay_protocol_version: u16,
    pub settlement_key: String,
    pub from_tx_id: u64,
    pub to_tx_id: u64,
    pub evidence_hash: String,
    pub replay_hash: String,
    pub replay_summary: ReplaySummary,
}

/// Abstract evidence bundle.
pub struct EvidenceBundleView {
    pub schema_version: u16,
    pub replay_protocol_version: u16,
    pub settlement_key: Seq<char>,
    pub from_tx_id: u64,
    pub to_tx_id: u64,
    pub evidence_hash: Seq<char>,
    pub replay_hash: Seq<char>,
    pub replay_summary: ReplaySummary,
}

impl View for EvidenceBundle {
    type V = EvidenceBundleView;

    open spec fn view(&self) -> EvidenceBundleView {
        EvidenceBundleView {
            schema_version: self.schema_version,
            replay_protocol_version: self.replay_protocol_version,
            settlement_key: self.settlement_key@,
            from_tx_id: self.from_tx_id,
            to_tx_id: self.to_tx_id,
            evidence_hash: self.evidence_hash@,
            replay_hash: self.replay_hash@,
            replay_summary: self.replay_summary,
        }
    }
}

/// The outcome of shape validation: the first failed check, if any.
pub open spec fn bundle_shape_error(b: EvidenceBundleView) -> Option<ErrorKind> {
    if b.schema_version > CURRENT_EVIDENCE_SCHEMA_VERSION {
        Some(ErrorKind::UnsupportedSchemaVersion)
    } else if b.replay_protocol_version != REPLAY_PROTOCOL_VERSION {
        Some(ErrorKind::ReplayProtocolMismatch)
    } else if b.settlement_key.len() == 0 || b.from_tx_id >= b.to_tx_id || b.evidence_hash.len()
        == 0 || b.replay_hash.len() == 0 || b.replay_summary.tx_count != sat_sub(
        b.to_tx_id,
        b.from_tx_id,
    ) || b.replay_summary.from_tx_id != b.from_tx_id || b.replay_summary.to_tx_id
        != b.to_tx_id {
        Some(ErrorKind::InvalidEvidenceBundle)
    } else {
        None
    }
}

/// Canonical bytes of an evidence bundle: its fields in order.
pub open spec fn enc_bundle(b: EvidenceBundleView) -> Seq<u8> {
    enc_u16(b.schema_version) + enc_u16(b.replay_protocol_version) + enc_str(b.settlement_key)
        + enc_u64(b.from_tx_id) + enc_u64(b.to_tx_id) + enc_str(b.evidence_hash) + enc_str(
        b.replay_hash,
    ) + enc_summary(b.replay_summary)
}

impl EvidenceBundle {
    /// Canonical bytes of the bundle.
    pub fn canonical_bytes(&self) -> (r: Vec<u8>)
        ensures
            r@ == enc_bundle(self@),
    {
        let mut out: Vec<u8> = Vec::new();
        put_u16(&mut out, self.schema_version);
        proof {
            assert(out@ =~= enc_u16(self.schema_version));
        }
        put_u16(&mut out, self.replay_protocol_version);
        put_str(&mut out, self.settlement_key.as_str());
        put_u64(&mut out, self.from_tx_id);
        put_u64(&mut out, self.to_tx_id);
        put_str(&mut out, self.evidence_hash.as_str());
        put_str(&mut out, self.replay_hash.as_str());
        put_summary(&mut out, &self.replay_summary);
        out
    }

    /// Deterministic hash of the bundle: the evidence hash of its canonical bytes.
    pub fn bundle_hash(&self) -> (r: String)
        ensures
            r@ == evidence_hash_of(enc_bundle(self@)),
            r@.len() == 64,
            is_lower_hex(r@),
    {
        let b = self.canonical_bytes();
        evidence_hash(b.as_slice())
    }

    /// Check versions, required fields, the window (`from < to`) and that the summary
    /// covers exactly this window.
    pub fn validate_shape(&self) -> (r: Result<()>)
        ensures
            match bundle_shape_error(self@) {
                None => r is Ok,
                Some(k) => r matches Err(e) && e.kind() == k,
            },
    {
        if self.schema_version > CURRENT_EVIDENCE_SCHEMA_VERSION {
            return Err(Error::UnsupportedSchemaVersion);
        }
        if self.replay_protocol_version != REPLAY_PROTOCOL_VERSION {
            return Err(Error::ReplayProtocolMismatch);
        }
        if self.settlement_key.as_str().is_empty() {
            return Err(Error::InvalidEvidenceBundle);
        }
        if self.from_tx_id >= self.to_tx_id {
            return Err(Error::InvalidEvidenceBundle);
        }
        if self.evidence_hash.as_str().is_empty() || self.replay_hash.as_str().is_empty() {
            return Err(Error::InvalidEvidenceBundle);
        }
        let expected_count = self.to_tx_id.saturating_sub(self.from_tx_id);
        if self.replay_summary.tx_count != expected_count {
            return Err(Error::InvalidEvidenceBundle);
        }
        if self.replay_summary.from_tx_id != self.from_tx_id || self.replay_summary.to_tx_id
            != self.to_tx_id {
            return Err(Error::InvalidEvidenceBundle);
        }
        Ok(())
    }
}

} // verus!

use metering_chain::evidence::{
    evidence_hash, tx_slice_hash, EvidenceBundle, ReplaySummary, CURRENT_EVIDENCE_SCHEMA_VERSION,
    REPLAY_PROTOCOL_VERSION,
};
use metering_chain::error::Error;
use metering_chain::tx::{SignedTx, Transaction};

fn bundle(summary: ReplaySummary) -> EvidenceBundle {
    EvidenceBundle {
        schema_version: CURRENT_EVIDENCE_SCHEMA_VERSION,
        replay_protocol_version: REPLAY_PROTOCOL_VERSION,
        settlement_key: "a:b:w".to_string(),
        from_tx_id: 0,
        to_tx_id: 2,
        evidence_hash: "eh".to_string(),
        replay_hash: summary.replay_hash(),
        replay_summary: summary,
    }
}

#[test]
fn test_evidence_hash_deterministic() {
    let data = b"hello";
    let h1 = evidence_hash(data);
    let h2 = evidence_hash(data);
    assert_eq!(h1, h2);
    assert_eq!(h1.len(), 64);
}

#[test]
fn test_evidence_hash_known_vector() {
    assert_eq!(
        evidence_hash(b"hello"),
        "2cf24dba5fb0a30e26e83b2ac5b9e29e1b161e5c1fa7425e73043362938b9824"
    );
}

#[test]
fn test_tx_slice_hash_deterministic() {
    let tx = SignedTx::new(
        "alice".to_string(),
        0,
        Transaction::Mint { to: "bob".to_string(), amount: 100 },
    );
    let txs = vec![tx.clone(), tx.clone()];
    let h1 = tx_slice_hash(&txs);
    let h2 = tx_slice_hash(&txs);
    assert_eq!(h1, h2);
}

#[test]
fn test_tx_slice_hash_is_hash_of_concatenated_canonical_bytes() {
    let tx = SignedTx::new(
        "alice".to_string(),
        0,
        Transaction::Mint { to: "bob".to_string(), amount: 100 },
    );
    let one = metering_chain::tx::encode::signed_tx_bytes(&tx);
    let mut two = one.clone();
    two.extend_from_slice(&one);
    assert_eq!(tx_slice_hash(&[tx.clone(), tx.clone()]), evidence_hash(&two));
    assert_eq!(tx_slice_hash(&[]), evidence_hash(&[]));
}

#[test]
fn test_replay_summary_replay_hash_deterministic() {
    let s = ReplaySummary::new(0, 3, 3, 50, 45, 5, 0);
    assert_eq!(s.replay_hash(), s.replay_hash());
}

#[test]
fn test_replay_summary_canonical_bytes_layout() {
    let s = ReplaySummary::new(1, 2, 3, 4, 5, 6, 7);
    let b = s.canonical_bytes();
    assert_eq!(b.len(), 56);
    assert_eq!(&b[0..8], &1u64.to_le_bytes());
    assert_eq!(&b[48..56], &7u64.to_le_bytes());
    let legacy = bincode::serialize(&(1u64, 2u64, 3u64, 4u64, 5u64, 6u64, 7u64)).unwrap();
    assert_eq!(b, legacy);
    assert_eq!(s.replay_hash(), evidence_hash(&b));
}

#[test]
fn test_evidence_bundle_validate_shape() {
    let summary = ReplaySummary::new(0, 2, 2, 10, 9, 1, 0);
    let good = bundle(summary);
    assert!(good.validate_shape().is_ok());
    let bad = EvidenceBundle { from_tx_id: 1, to_tx_id: 1, ..good.clone() };
    assert!(bad.validate_shape().is_err());
}

#[test]
fn test_evidence_bundle_validate_shape_errors() {
    let summary = ReplaySummary::new(0, 2, 2, 10, 9, 1, 0);
    let good = bundle(summary);
    let unsupported = EvidenceBundle { schema_version: 999, ..good.clone() };
    assert!(matches!(unsupported.validate_shape(), Err(Error::UnsupportedSchemaVersion)));
    assert_eq!(unsupported.validate_shape().unwrap_err().error_code(), "UNSUPPORTED_SCHEMA_VERSION");
    let protocol = EvidenceBundle { replay_protocol_version: 999, ..good.clone() };
    assert!(matches!(protocol.validate_shape(), Err(Error::ReplayProtocolMismatch)));
    assert_eq!(protocol.validate_shape().unwrap_err().error_code(), "REPLAY_PROTOCOL_MISMATCH");
    let wrong_count = EvidenceBundle {
        replay_summary: ReplaySummary::new(0, 2, 3, 10, 9, 1, 0),
        ..good.clone()
    };
    assert!(matches!(wrong_count.validate_shape(), Err(Error::InvalidEvidenceBundle)));
    let empty_key = EvidenceBundle { settlement_key: String::new(), ..good.clone() };
    assert!(matches!(empty_key.validate_shape(), Err(Error::InvalidEvidenceBundle)));
}

#[test]
fn test_bundle_hash_is_evidence_hash_of_canonical_bytes() {
    let summary = ReplaySummary::new(0, 2, 2, 10, 9, 1, 0);
    let b = bundle(summary);
    assert_eq!(b.bundle_hash(), evidence_hash(&b.canonical_bytes()));
    assert_eq!(b.bundle_hash(), b.bundle_hash());
}

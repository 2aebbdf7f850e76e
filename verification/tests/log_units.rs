use metering_chain::chain::block::Block;
use metering_chain::chain::consensus::ProofOfWork;
use metering_chain::config::Config;
use metering_chain::error::Error;
use metering_chain::evidence::tx_slice_hash;
use metering_chain::replay::{propose_window, replay_loaded, replay_prefix};
use metering_chain::storage::{
    frame_tx, snapshot_bytes, split_frames, split_snapshot, tmp_path_for, FileStorage,
};
use metering_chain::tx::encode::signed_tx_bytes;
use metering_chain::tx::delegation::parse_signed_proof;
use metering_chain::tx::{build_signed_proof, DelegationProofMinimal, Pricing, SignedTx, Transaction};
use metering_chain::wallet::{
    address_to_public_key, admit_submission, public_key_to_address, verify_signature, Wallet,
};
use sha2::{Digest, Sha256};

fn mint(to: &str, amount: u64) -> SignedTx {
    SignedTx::new("authority".to_string(), 0, Transaction::Mint { to: to.to_string(), amount })
}

fn usage_log() -> Vec<SignedTx> {
    vec![
        mint("alice", 1000),
        SignedTx::new(
            "alice".to_string(),
            0,
            Transaction::OpenMeter { owner: "alice".to_string(), service_id: "svc".to_string(), deposit: 10 },
        ),
        SignedTx::new(
            "alice".to_string(),
            1,
            Transaction::Consume {
                owner: "alice".to_string(),
                service_id: "svc".to_string(),
                units: 5,
                pricing: Pricing::UnitPrice(2),
            },
        ),
        SignedTx::new(
            "alice".to_string(),
            2,
            Transaction::Consume {
                owner: "alice".to_string(),
                service_id: "svc".to_string(),
                units: 3,
                pricing: Pricing::UnitPrice(2),
            },
        ),
    ]
}

#[test]
fn test_tmp_path_replaces_or_adds_extension() {
    assert_eq!(tmp_path_for("data/state.bin"), "data/state.bin.tmp");
    assert_eq!(tmp_path_for("data/state"), "data/state.bin.tmp");
    assert_eq!(tmp_path_for("a.json"), "a.bin.tmp");
    assert_eq!(tmp_path_for("dir.d/.hidden"), "dir.d/.hidden.bin.tmp");
    assert_eq!(tmp_path_for("x.tar.gz"), "x.tar.bin.tmp");
}

#[test]
fn test_file_storage_paths_from_config() {
    let config = Config::with_data_dir("data".to_string());
    let fs = FileStorage::new(&config);
    assert_eq!(fs.tx_log_path(), "data/tx.log");
    assert_eq!(fs.state_path(), "data/state.bin");
    assert_eq!(fs.state_tmp_path(), "data/state.bin.tmp");
    let custom = FileStorage::with_paths("l/txs".to_string(), "s/snap.dat".to_string());
    assert_eq!(custom.tx_log_path(), "l/txs");
    assert_eq!(custom.state_tmp_path(), "s/snap.bin.tmp");
}

#[test]
fn test_log_frames_split_back() {
    let txs = usage_log();
    let mut log = Vec::new();
    for t in &txs[..2] {
        log.extend(frame_tx(t));
    }
    let frames = split_frames(&log).unwrap();
    assert_eq!(frames.len(), 2);
    assert_eq!(frames[0], signed_tx_bytes(&txs[0]));
    assert_eq!(frames[1], signed_tx_bytes(&txs[1]));
    // A length prefix that was not fully written ends the log cleanly.
    let mut partial = log.clone();
    partial.extend([9u8, 0, 0]);
    assert_eq!(split_frames(&partial).unwrap().len(), 2);
    // An entry cut short makes the log unreadable.
    let cut = &log[..log.len() - 1];
    assert!(split_frames(cut).is_none());
    assert_eq!(split_frames(&[]).unwrap().len(), 0);
}

#[test]
fn test_snapshot_bytes_roundtrip() {
    let data = snapshot_bytes(&[1, 2, 3], 7);
    assert_eq!(data, vec![1, 2, 3, 7, 0, 0, 0, 0, 0, 0, 0]);
    assert_eq!(split_snapshot(&data), Some((vec![1, 2, 3], 7)));
    assert_eq!(split_snapshot(&[1, 2, 3]), None);
}

#[test]
fn test_signing_bytes_match_bincode_layout() {
    let tx = SignedTx::new("alice".to_string(), 3, Transaction::Mint { to: "bob".to_string(), amount: 7 });
    let expected = bincode::serialize(&("alice".to_string(), 3u64, (0u32, "bob".to_string(), 7u64))).unwrap();
    assert_eq!(tx.message_to_sign().unwrap(), expected);
}

#[test]
fn test_log_entry_matches_bincode_layout() {
    let mut tx = SignedTx::new("alice".to_string(), 3, Transaction::Mint { to: "bob".to_string(), amount: 7 });
    tx.signature = Some(vec![1, 2, 3]);
    let body = bincode::serialize(&(
        None::<u8>,
        "alice".to_string(),
        3u64,
        None::<String>,
        None::<u64>,
        None::<Vec<u8>>,
        (0u32, "bob".to_string(), 7u64),
        Some(vec![1u8, 2, 3]),
    ))
    .unwrap();
    let mut expected = (body.len() as u64).to_le_bytes().to_vec();
    expected.extend(&body);
    assert_eq!(frame_tx(&tx), expected);
}

#[test]
fn test_propose_window_splits_gross_spend() {
    let txs = usage_log();
    let state_from = replay_prefix(&txs, 2).unwrap();
    let kind = propose_window(&state_from, &txs[2..], 4, "alice", "svc", "w1", 2, 4).unwrap();
    let expected_hash = tx_slice_hash(&txs[2..4]);
    assert_eq!(
        kind,
        Transaction::ProposeSettlement {
            owner: "alice".to_string(),
            service_id: "svc".to_string(),
            window_id: "w1".to_string(),
            from_tx_id: 2,
            to_tx_id: 4,
            gross_spent: 16,
            operator_share: 14,
            protocol_fee: 2,
            reserve_locked: 0,
            evidence_hash: expected_hash,
        }
    );
}

#[test]
fn test_propose_window_rejections() {
    let txs = usage_log();
    let genesis = replay_prefix(&txs, 0).unwrap();
    let empty = propose_window(&genesis, &txs, 4, "alice", "svc", "w", 2, 2);
    assert!(matches!(empty, Err(Error::InvalidTransaction(_))));
    let beyond = propose_window(&genesis, &txs, 4, "alice", "svc", "w", 0, 5);
    assert!(matches!(beyond, Err(Error::InvalidTransaction(_))));
    let no_usage = propose_window(&genesis, &txs, 4, "alice", "svc", "w", 0, 2);
    assert!(matches!(no_usage, Err(Error::InvalidTransaction(_))));
}

#[test]
fn test_replay_from_snapshot_equals_full_replay() {
    let txs = usage_log();
    let (full, n) = replay_loaded(None, &txs).unwrap();
    let snap = replay_prefix(&txs, 2).unwrap();
    let (resumed, m) = replay_loaded(Some((snap, 2)), &txs[2..]).unwrap();
    assert_eq!(n, 4);
    assert_eq!(m, 4);
    assert_eq!(full, resumed);
    assert_eq!(full.get_meter("alice", "svc").unwrap().total_spent(), 16);
}

#[test]
fn test_wallet_signs_verifiable_transactions() {
    let w = Wallet::from_secret_key([7u8; 32]);
    let expected_pk = ed25519_dalek::SigningKey::from_bytes(&[7u8; 32]).verifying_key().to_bytes();
    assert_eq!(w.public_key_bytes(), expected_pk);
    assert_ne!(w.public_key_bytes(), [7u8; 32]);
    assert_eq!(w.address(), public_key_to_address(&expected_pk));
    assert_eq!(w.address(), format!("0x{}", hex::encode(expected_pk)));
    assert_eq!(address_to_public_key(w.address()), Some(expected_pk));
    let tx = w.sign_transaction(0, Transaction::Mint { to: "bob".to_string(), amount: 1 }).unwrap();
    assert_eq!(tx.signature.as_ref().unwrap().len(), 64);
    assert!(verify_signature(&tx).is_ok());
    let mut tampered = tx.clone();
    tampered.nonce = 1;
    assert!(matches!(verify_signature(&tampered), Err(Error::SignatureVerification(_))));
}

#[test]
fn test_proof_of_work_finds_first_nonce_below_target() {
    let block = Block::new_block("prev".to_string(), &[], 1);
    let mut target = vec![0u8; 32];
    target[0] = 0x20;
    let pow = ProofOfWork::new(block, target.clone());
    let (nonce, hash) = pow.run();
    let digest = |n: i64| Sha256::digest(pow.prepare_data(n)).to_vec();
    for n in 0..nonce {
        assert!(digest(n) >= target);
    }
    assert!(digest(nonce) < target);
    assert_eq!(hash, hex::encode(digest(nonce)));
    let data = pow.prepare_data(5);
    assert_eq!(&data[..4], b"prev");
    assert_eq!(&data[data.len() - 8..], &5u64.to_be_bytes());
}

#[test]
fn test_proof_of_work_easy_target_takes_nonce_zero() {
    let block = Block::new_block(String::new(), &[], 0);
    let pow = ProofOfWork::new(block, vec![0xff; 33]);
    let (nonce, hash) = pow.run();
    assert_eq!(nonce, 0);
    assert_eq!(hash, hex::encode(Sha256::digest(pow.prepare_data(0))));
}

#[test]
fn test_block_bytes_layout() {
    let txs = vec![mint("alice", 5)];
    let block = Block::new_block("p".to_string(), &txs, 2);
    let bytes = block.to_bytes().unwrap();
    assert_eq!(&bytes[..8], &(block.timestamp as u64).to_le_bytes());
    assert_eq!(&bytes[8..16], &1u64.to_le_bytes());
    assert_eq!(bytes[16], b'p');
    assert_eq!(&bytes[bytes.len() - 8..], &2u64.to_le_bytes());
    assert_eq!(block.transactions.len(), 1);
}

#[test]
fn test_admit_submission_rules() {
    let unsigned = mint("bob", 1);
    assert!(matches!(admit_submission(&unsigned, false, false), Err(Error::SignatureVerification(_))));
    assert!(admit_submission(&unsigned, true, false).is_ok());
    assert!(admit_submission(&unsigned, false, true).is_ok());
    let w = Wallet::from_secret_key([9u8; 32]);
    let signed = w.sign_transaction(4, Transaction::Mint { to: "bob".to_string(), amount: 1 }).unwrap();
    assert!(admit_submission(&signed, false, false).is_ok());
    let mut forged = signed.clone();
    forged.nonce = 5;
    assert!(matches!(admit_submission(&forged, true, true), Err(Error::SignatureVerification(_))));
}

#[test]
fn test_signed_proof_parses_back() {
    let claims = DelegationProofMinimal {
        iat: 10,
        exp: 20,
        issuer: "owner".to_string(),
        audience: "delegate".to_string(),
        service_id: "svc".to_string(),
        ability: Some("consume".to_string()),
        max_units: None,
        max_cost: Some(99),
    };
    let bytes = build_signed_proof(&claims, vec![4u8; 64]);
    let parsed = parse_signed_proof(&bytes).unwrap();
    assert_eq!(parsed.claims, claims);
    assert_eq!(parsed.signature, vec![4u8; 64]);
    assert!(parse_signed_proof(&bytes[..bytes.len() - 1]).is_none());
}

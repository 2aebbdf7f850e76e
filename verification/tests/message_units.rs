use metering_chain::error::Error;
use metering_chain::evidence::ReplaySummary;
use metering_chain::nameset::NameSet;
use metering_chain::replay::{replay_loaded, snapshot_cursor};
use metering_chain::state::{Account, State};
use metering_chain::tx::validation::{validate, ValidationContext};
use metering_chain::tx::{compute_cost, validate_mint, Pricing, SignedTx, Transaction};
use metering_chain::wallet::admit_submission;

fn minters() -> NameSet {
    let mut m = NameSet::new();
    m.insert("authority".to_string());
    m
}

fn funded_state() -> State {
    let mut s = State::new();
    s.accounts.insert("authority".to_string(), Account::with_balance(0));
    s
}

#[test]
fn test_unauthorized_mint_message() {
    let tx = SignedTx::new("mallory".to_string(), 0, Transaction::Mint { to: "bob".to_string(), amount: 5 });
    match validate_mint(&State::new(), &tx, Some(&minters())) {
        Err(Error::InvalidTransaction(msg)) => {
            assert_eq!(msg, "Mint authorization failed: mallory is not an authorized minter")
        }
        other => panic!("unexpected {:?}", other),
    }
}

#[test]
fn test_cost_overflow_message() {
    match compute_cost(2, &Pricing::UnitPrice(u64::MAX)) {
        Err(Error::InvalidTransaction(msg)) => assert_eq!(
            msg,
            format!("Cost computation overflow: 2 units × {} price", u64::MAX)
        ),
        other => panic!("unexpected {:?}", other),
    }
}

#[test]
fn test_authority_refusal_and_nonce_messages() {
    let s = funded_state();
    let propose = |signer: &str, nonce: u64| {
        SignedTx::new(
            signer.to_string(),
            nonce,
            Transaction::FinalizeSettlement {
                owner: "alice".to_string(),
                service_id: "svc".to_string(),
                window_id: "w".to_string(),
            },
        )
    };
    match validate(&s, &propose("bob", 0), &ValidationContext::replay(), Some(&minters())) {
        Err(Error::InvalidTransaction(msg)) => {
            assert_eq!(msg, "FinalizeSettlement: signer bob must be authorized minter/admin")
        }
        other => panic!("unexpected {:?}", other),
    }
    match validate(&s, &propose("authority", 3), &ValidationContext::replay(), Some(&minters())) {
        Err(Error::InvalidTransaction(msg)) => assert_eq!(
            msg,
            "FinalizeSettlement: Nonce mismatch for signer authority: expected 0, got 3"
        ),
        other => panic!("unexpected {:?}", other),
    }
}

#[test]
fn test_unsigned_rejection_message() {
    let tx = SignedTx::new("alice".to_string(), 0, Transaction::Mint { to: "bob".to_string(), amount: 1 });
    match admit_submission(&tx, false, false) {
        Err(Error::SignatureVerification(msg)) => {
            assert_eq!(msg, "Unsigned tx rejected (use --allow-unsigned for legacy apply)")
        }
        other => panic!("unexpected {:?}", other),
    }
}

#[test]
fn test_replay_hash_is_lowercase_hex_of_64() {
    let h = ReplaySummary::new(0, 2, 2, 10, 9, 1, 0).replay_hash();
    assert_eq!(h.len(), 64);
    assert!(h.chars().all(|c| c.is_ascii_digit() || ('a'..='f').contains(&c)));
}

#[test]
fn test_snapshot_cursor() {
    assert_eq!(snapshot_cursor(&None), 0);
    assert_eq!(snapshot_cursor(&Some((State::new(), 7))), 7);
}

#[test]
fn test_replay_failure_persists_over_later_transactions() {
    let bad = SignedTx::new("alice".to_string(), 0, Transaction::CloseMeter { owner: "alice".to_string(), service_id: "svc".to_string() });
    let good = SignedTx::new("authority".to_string(), 0, Transaction::Mint { to: "alice".to_string(), amount: 5 });
    let short = replay_loaded(None, &[bad.clone()]);
    let long = replay_loaded(None, &[bad, good]);
    assert!(matches!(short, Err(Error::InvalidTransaction(_))));
    assert_eq!(format!("{:?}", short), format!("{:?}", long));
}

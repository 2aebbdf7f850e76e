use metering_chain::error::Error;
use metering_chain::nameset::NameSet;
use metering_chain::state::{Account, Meter, State};
use metering_chain::tx::validation::{principal_to_public_key, ValidationContext};
use metering_chain::tx::{
    compute_cost, principal_to_chain_address, validate_close_meter, validate_consume,
    validate_mint, validate_open_meter, Pricing, SignedTx, Transaction,
};
use metering_chain::wallet::Wallet;

fn create_test_state() -> State {
    let mut state = State::new();
    let account = Account::with_balance(1000);
    state.accounts.insert("alice".to_string(), account);
    state
}

fn replay_ctx() -> ValidationContext {
    ValidationContext::replay()
}

fn create_authorized_minters() -> NameSet {
    let mut minters = NameSet::new();
    minters.insert("authority".to_string());
    minters
}

#[test]
fn test_compute_cost_unit_price() {
    let pricing = Pricing::UnitPrice(10);
    let cost = compute_cost(5, &pricing).unwrap();
    assert_eq!(cost, 50);
}

#[test]
fn test_compute_cost_fixed_cost() {
    let pricing = Pricing::FixedCost(100);
    let cost = compute_cost(5, &pricing).unwrap();
    assert_eq!(cost, 100);
}

#[test]
fn test_compute_cost_overflow() {
    let pricing = Pricing::UnitPrice(u64::MAX);
    let result = compute_cost(2, &pricing);
    assert!(result.is_err());
}

#[test]
fn test_compute_cost_overflow_is_invalid_transaction() {
    match compute_cost(2, &Pricing::UnitPrice(u64::MAX)) {
        Err(e) => {
            assert_eq!(e.error_code(), "INVALID_TRANSACTION");
            assert!(e.message().contains("overflow"));
        }
        Ok(_) => panic!("expected overflow"),
    }
}

#[test]
fn test_validate_mint_success() {
    let state = State::new();
    let minters = create_authorized_minters();
    let tx = SignedTx::new(
        "authority".to_string(),
        0,
        Transaction::Mint { to: "alice".to_string(), amount: 100 },
    );
    assert!(validate_mint(&state, &tx, Some(&minters)).is_ok());
}

#[test]
fn test_validate_mint_unauthorized() {
    let state = State::new();
    let minters = create_authorized_minters();
    let tx = SignedTx::new(
        "alice".to_string(),
        0,
        Transaction::Mint { to: "bob".to_string(), amount: 100 },
    );
    assert!(validate_mint(&state, &tx, Some(&minters)).is_err());
}

#[test]
fn test_validate_mint_zero_amount() {
    let state = State::new();
    let minters = create_authorized_minters();
    let tx = SignedTx::new(
        "authority".to_string(),
        0,
        Transaction::Mint { to: "alice".to_string(), amount: 0 },
    );
    assert!(validate_mint(&state, &tx, Some(&minters)).is_err());
}

#[test]
fn test_validate_mint_without_minter_set_skips_authority() {
    let state = State::new();
    let tx = SignedTx::new(
        "anyone".to_string(),
        7,
        Transaction::Mint { to: "alice".to_string(), amount: 1 },
    );
    assert!(validate_mint(&state, &tx, None).is_ok());
}

#[test]
fn test_validate_open_meter_success() {
    let state = create_test_state();
    let tx = SignedTx::new(
        "alice".to_string(),
        0,
        Transaction::OpenMeter { owner: "alice".to_string(), service_id: "storage".to_string(), deposit: 100 },
    );
    assert!(validate_open_meter(&state, &tx).is_ok());
}

#[test]
fn test_validate_open_meter_wrong_signer() {
    let state = create_test_state();
    let tx = SignedTx::new(
        "bob".to_string(),
        0,
        Transaction::OpenMeter { owner: "alice".to_string(), service_id: "storage".to_string(), deposit: 100 },
    );
    assert!(validate_open_meter(&state, &tx).is_err());
}

#[test]
fn test_validate_open_meter_insufficient_balance() {
    let state = create_test_state();
    let tx = SignedTx::new(
        "alice".to_string(),
        0,
        Transaction::OpenMeter { owner: "alice".to_string(), service_id: "storage".to_string(), deposit: 2000 },
    );
    assert!(validate_open_meter(&state, &tx).is_err());
}

#[test]
fn test_validate_open_meter_existing_active_meter() {
    let mut state = create_test_state();
    let meter = Meter::new("alice".to_string(), "storage".to_string(), 50);
    state.insert_meter(meter);

    let tx = SignedTx::new(
        "alice".to_string(),
        0,
        Transaction::OpenMeter { owner: "alice".to_string(), service_id: "storage".to_string(), deposit: 100 },
    );
    assert!(validate_open_meter(&state, &tx).is_err());
}

#[test]
fn test_validate_open_meter_nonce_mismatch_message() {
    let state = create_test_state();
    let tx = SignedTx::new(
        "alice".to_string(),
        3,
        Transaction::OpenMeter { owner: "alice".to_string(), service_id: "storage".to_string(), deposit: 100 },
    );
    match validate_open_meter(&state, &tx) {
        Err(Error::InvalidTransaction(msg)) => assert_eq!(msg, "Nonce mismatch: expected 0, got 3"),
        other => panic!("unexpected {:?}", other),
    }
}

#[test]
fn test_validate_consume_success() {
    let mut state = create_test_state();
    let meter = Meter::new("alice".to_string(), "storage".to_string(), 100);
    state.insert_meter(meter);

    let tx = SignedTx::new(
        "alice".to_string(),
        0,
        Transaction::Consume {
            owner: "alice".to_string(),
            service_id: "storage".to_string(),
            units: 10,
            pricing: Pricing::UnitPrice(5),
        },
    );
    let result = validate_consume(&state, &tx, &replay_ctx());
    assert!(result.is_ok());
    assert_eq!(result.unwrap(), 50);
}

#[test]
fn test_validate_consume_inactive_meter() {
    let mut state = create_test_state();
    let mut meter = Meter::new("alice".to_string(), "storage".to_string(), 100);
    meter.close();
    state.insert_meter(meter);

    let tx = SignedTx::new(
        "alice".to_string(),
        0,
        Transaction::Consume {
            owner: "alice".to_string(),
            service_id: "storage".to_string(),
            units: 10,
            pricing: Pricing::UnitPrice(5),
        },
    );
    assert!(validate_consume(&state, &tx, &replay_ctx()).is_err());
}

#[test]
fn test_validate_consume_zero_units() {
    let mut state = create_test_state();
    let meter = Meter::new("alice".to_string(), "storage".to_string(), 100);
    state.insert_meter(meter);

    let tx = SignedTx::new(
        "alice".to_string(),
        0,
        Transaction::Consume {
            owner: "alice".to_string(),
            service_id: "storage".to_string(),
            units: 0,
            pricing: Pricing::UnitPrice(5),
        },
    );
    assert!(validate_consume(&state, &tx, &replay_ctx()).is_err());
}

#[test]
fn test_validate_consume_owner_signed_foreign_nonce_account() {
    let mut state = create_test_state();
    state.insert_meter(Meter::new("alice".to_string(), "storage".to_string(), 100));
    let mut tx = SignedTx::new(
        "alice".to_string(),
        0,
        Transaction::Consume {
            owner: "alice".to_string(),
            service_id: "storage".to_string(),
            units: 1,
            pricing: Pricing::FixedCost(5),
        },
    );
    tx.nonce_account = Some("bob".to_string());
    assert!(matches!(validate_consume(&state, &tx, &replay_ctx()), Err(Error::NonceAccountMissingOrInvalid)));
}

#[test]
fn test_validate_close_meter_success() {
    let mut state = create_test_state();
    let meter = Meter::new("alice".to_string(), "storage".to_string(), 100);
    state.insert_meter(meter);

    let tx = SignedTx::new(
        "alice".to_string(),
        0,
        Transaction::CloseMeter { owner: "alice".to_string(), service_id: "storage".to_string() },
    );
    assert!(validate_close_meter(&state, &tx).is_ok());
}

#[test]
fn test_validate_close_meter_inactive() {
    let mut state = create_test_state();
    let mut meter = Meter::new("alice".to_string(), "storage".to_string(), 100);
    meter.close();
    state.insert_meter(meter);

    let tx = SignedTx::new(
        "alice".to_string(),
        0,
        Transaction::CloseMeter { owner: "alice".to_string(), service_id: "storage".to_string() },
    );
    assert!(validate_close_meter(&state, &tx).is_err());
}

#[test]
fn test_principal_to_chain_address_ok() {
    let hex32 = "0x".to_string() + &"a".repeat(64);
    let out = principal_to_chain_address(&hex32).unwrap();
    assert_eq!(out, "0x".to_string() + &"a".repeat(64));
    let hex_upper = "0x".to_string() + &"Ab".repeat(32);
    let out = principal_to_chain_address(&hex_upper).unwrap();
    assert_eq!(out, "0x".to_string() + &"ab".repeat(32));
}

#[test]
fn test_principal_to_chain_address_reject_non_0x() {
    let err = principal_to_chain_address("alice").unwrap_err();
    match &err {
        Error::PrincipalBindingFailed(msg) => {
            assert!(msg.contains("0x") || msg.contains("did:key"));
        }
        _ => panic!("expected PrincipalBindingFailed, got {:?}", err),
    }
}

#[test]
fn test_principal_to_chain_address_trims_and_rejects_short_hex() {
    let hex32 = "  0x".to_string() + &"0f".repeat(32) + "\n";
    assert_eq!(principal_to_chain_address(&hex32).unwrap(), "0x".to_string() + &"0f".repeat(32));
    let short = "0x".to_string() + &"ab".repeat(31);
    assert!(matches!(principal_to_chain_address(&short), Err(Error::PrincipalBindingFailed(_))));
    assert!(matches!(principal_to_chain_address("0xzz"), Err(Error::PrincipalBindingFailed(_))));
}

#[test]
fn test_principal_to_chain_address_did_key_roundtrip() {
    let wallet = Wallet::new_random();
    let address = wallet.address().to_string();
    let hex_body = address.strip_prefix("0x").unwrap();
    let key_bytes: [u8; 32] = hex::decode(hex_body).unwrap().try_into().unwrap();
    let mut payload = vec![0xed, 0x01];
    payload.extend_from_slice(&key_bytes);
    let multibase = "did:key:z".to_string() + &bs58::encode(payload).into_string();
    let out = principal_to_chain_address(&multibase).unwrap();
    assert_eq!(out, address, "did:key round-trip must match wallet address");
}

#[test]
fn test_principal_to_chain_address_did_key_spec_vector() {
    let did = "did:key:z6Mkf5rGMoatrSj1f4CyvuHBeXJELe9RPdzo2PKGNCKVtZxP";
    let out = principal_to_chain_address(did).unwrap();
    assert!(out.starts_with("0x") && out.len() == 66);
    assert!(out.chars().skip(2).all(|c| c.is_ascii_hexdigit()));
    assert_eq!(principal_to_chain_address(did).unwrap(), out);
}

#[test]
fn test_principal_to_chain_address_did_key_reject_wrong_multicodec() {
    let key_bytes = [0u8; 32];
    let mut payload = vec![0xec, 0x01];
    payload.extend_from_slice(&key_bytes);
    let multibase = "did:key:z".to_string() + &bs58::encode(payload).into_string();
    let err = principal_to_chain_address(&multibase).unwrap_err();
    match &err {
        Error::PrincipalBindingFailed(msg) => assert!(msg.contains("Ed25519") || msg.contains("0xed")),
        _ => panic!("expected PrincipalBindingFailed, got {:?}", err),
    }
}

#[test]
fn test_principal_to_public_key_did_key() {
    let wallet = Wallet::new_random();
    let address = wallet.address().to_string();
    let hex_body = address.strip_prefix("0x").unwrap();
    let key_bytes: [u8; 32] = hex::decode(hex_body).unwrap().try_into().unwrap();
    let mut payload = vec![0xed, 0x01];
    payload.extend_from_slice(&key_bytes);
    let did_key = "did:key:z".to_string() + &bs58::encode(payload).into_string();
    let from_did = principal_to_public_key(&did_key).unwrap();
    assert_eq!(from_did, key_bytes, "principal_to_public_key(did:key) must match 0x pubkey for proof verification");
}

#[test]
fn test_principal_to_public_key_did_key_reject_non_canonical_length() {
    let key_bytes = [0u8; 32];
    let mut payload = vec![0xed, 0x01];
    payload.extend_from_slice(&key_bytes);
    payload.push(0);
    let multibase = "did:key:z".to_string() + &bs58::encode(payload).into_string();
    let err = principal_to_public_key(&multibase).unwrap_err();
    match &err {
        Error::PrincipalBindingFailed(msg) => {
            assert!(msg.contains("length") || msg.contains("0xed"), "expected length/header message: {}", msg);
        }
        _ => panic!("expected PrincipalBindingFailed, got {:?}", err),
    }
}

#[test]
fn test_principal_did_key_requires_z_and_valid_base58() {
    assert!(matches!(principal_to_public_key("did:key:abc"), Err(Error::PrincipalBindingFailed(_))));
    assert!(matches!(principal_to_public_key("did:key:z0OIl"), Err(Error::PrincipalBindingFailed(_))));
}

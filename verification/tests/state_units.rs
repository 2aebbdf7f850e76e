use metering_chain::state::{Account, Meter, State};

#[test]
fn test_account_creation() {
    let account = Account::new();
    assert_eq!(account.balance, 0);
    assert_eq!(account.nonce, 0);
}

#[test]
fn test_account_with_balance() {
    let account = Account::with_balance(100);
    assert_eq!(account.balance, 100);
    assert_eq!(account.nonce, 0);
}

#[test]
fn test_add_balance() {
    let mut account = Account::new();
    account.add_balance(50);
    assert_eq!(account.balance, 50);
}

#[test]
fn test_subtract_balance_success() {
    let mut account = Account::with_balance(100);
    let result = account.subtract_balance(30);
    assert!(result.is_ok());
    assert_eq!(account.balance, 70);
}

#[test]
fn test_subtract_balance_insufficient() {
    let mut account = Account::with_balance(50);
    let result = account.subtract_balance(100);
    assert!(result.is_err());
    assert_eq!(account.balance, 50);
}

#[test]
fn test_increment_nonce() {
    let mut account = Account::new();
    account.increment_nonce();
    assert_eq!(account.nonce, 1);
    account.increment_nonce();
    assert_eq!(account.nonce, 2);
}

#[test]
fn test_add_balance_saturates_and_reports_new_balance() {
    let mut account = Account::with_balance(u64::MAX - 1);
    assert_eq!(account.add_balance(10), u64::MAX);
    assert_eq!(account.balance, u64::MAX);
}

#[test]
fn test_subtract_balance_insufficient_message() {
    let mut account = Account::with_balance(5);
    let err = account.subtract_balance(7).unwrap_err();
    assert_eq!(err, "Insufficient balance: have 5, need 7");
}

#[test]
fn test_meter_creation() {
    let meter = Meter::new("alice".to_string(), "storage".to_string(), 100);
    assert_eq!(meter.owner, "alice");
    assert_eq!(meter.service_id, "storage");
    assert_eq!(meter.total_units, 0);
    assert_eq!(meter.total_spent, 0);
    assert!(meter.active);
    assert_eq!(meter.locked_deposit, 100);
}

#[test]
fn test_meter_close() {
    let mut meter = Meter::new("alice".to_string(), "storage".to_string(), 100);
    let deposit = meter.close();
    assert_eq!(deposit, 100);
    assert!(!meter.active);
    assert_eq!(meter.locked_deposit, 0);
}

#[test]
fn test_meter_reactivate() {
    let mut meter = Meter::inactive("alice".to_string(), "storage".to_string(), 50, 200);
    meter.reactivate(150);
    assert!(meter.active);
    assert_eq!(meter.locked_deposit, 150);
    assert_eq!(meter.total_units, 50);
    assert_eq!(meter.total_spent, 200);
}

#[test]
fn test_record_consumption() {
    let mut meter = Meter::new("alice".to_string(), "storage".to_string(), 100);
    meter.record_consumption(10, 50);
    assert_eq!(meter.total_units, 10);
    assert_eq!(meter.total_spent, 50);

    meter.record_consumption(5, 25);
    assert_eq!(meter.total_units, 15);
    assert_eq!(meter.total_spent, 75);
}

#[test]
fn test_record_consumption_saturates() {
    let mut meter = Meter::new("alice".to_string(), "storage".to_string(), 100);
    meter.record_consumption(u64::MAX, u64::MAX);
    meter.record_consumption(1, 1);
    assert_eq!(meter.total_units, u64::MAX);
    assert_eq!(meter.total_spent, u64::MAX);
}

#[test]
fn test_state_creation() {
    let state = State::new();
    assert!(state.accounts.is_empty());
    assert!(state.meters.is_empty());
}

#[test]
fn test_get_or_create_account() {
    let mut state = State::new();
    let account = state.get_or_create_account("alice");
    assert_eq!(account.balance, 0);
    assert_eq!(account.nonce, 0);
}

#[test]
fn test_insert_meter() {
    let mut state = State::new();
    let meter = Meter::new("alice".to_string(), "storage".to_string(), 100);
    state.insert_meter(meter);

    let retrieved = state.get_meter("alice", "storage");
    assert!(retrieved.is_some());
    assert_eq!(retrieved.unwrap().service_id, "storage");
}

#[test]
fn test_has_active_meter() {
    let mut state = State::new();
    let meter = Meter::new("alice".to_string(), "storage".to_string(), 100);
    state.insert_meter(meter);

    assert!(state.has_active_meter("alice", "storage"));
    assert!(!state.has_active_meter("alice", "api_calls"));
    assert!(!state.has_active_meter("bob", "storage"));
}

#[test]
fn test_has_active_meter_inactive() {
    let mut state = State::new();
    let mut meter = Meter::new("alice".to_string(), "storage".to_string(), 100);
    meter.close();
    state.insert_meter(meter);

    assert!(!state.has_active_meter("alice", "storage"));
}

#[test]
fn test_owner_meters_in_insertion_order() {
    let mut state = State::new();
    state.insert_meter(Meter::new("alice".to_string(), "storage".to_string(), 1));
    state.insert_meter(Meter::new("bob".to_string(), "storage".to_string(), 2));
    let mut closed = Meter::new("alice".to_string(), "api".to_string(), 3);
    closed.close();
    state.insert_meter(closed);
    let all: Vec<&str> = state.get_owner_meters("alice").iter().map(|m| m.service_id.as_str()).collect();
    assert_eq!(all, vec!["storage", "api"]);
    let active: Vec<&str> = state
        .get_owner_active_meters("alice")
        .iter()
        .map(|m| m.service_id.as_str())
        .collect();
    assert_eq!(active, vec!["storage"]);
}

#[test]
fn test_state_check_wf_on_fresh_state() {
    let mut state = State::new();
    state.accounts.insert("alice".to_string(), Account::with_balance(3));
    assert!(state.check_wf());
}

use metering_chain::error::{Error, Result};
use metering_chain::nameset::NameSet;
use metering_chain::state::hook::Hook;
use metering_chain::state::{apply, Account, Meter, NoOpHook, State, StateMachine};
use metering_chain::tx::validation::ValidationContext;
use metering_chain::tx::{Pricing, SignedTx, Transaction};

fn replay_ctx() -> ValidationContext {
    ValidationContext::replay()
}

/// Hook that blocks before_consume (e.g. OutOfGas).
#[derive(Default)]
struct RejectConsumeHook;

impl Hook for RejectConsumeHook {
    fn before_consume(&mut self, _owner: &str, _service_id: &str, _units: u64, _cost: u64) -> Result<()> {
        Err(Error::StateError("blocked by before_consume".to_string()))
    }
}

/// Hook that blocks before_meter_open.
#[derive(Default)]
struct RejectOpenMeterHook;

impl Hook for RejectOpenMeterHook {
    fn before_meter_open(&mut self, _owner: &str, _service_id: &str, _deposit: u64) -> Result<()> {
        Err(Error::StateError("blocked by before_meter_open".to_string()))
    }
}

/// Hook that records what it observes.
#[derive(Default)]
struct RecordingHook {
    consumed: Vec<(String, u64, u64, Option<String>)>,
    closed: Vec<u64>,
}

impl Hook for RecordingHook {
    fn on_consume_recorded(
        &mut self,
        owner: &str,
        _service_id: &str,
        units: u64,
        cost: u64,
        cap_id: Option<&str>,
    ) -> Result<()> {
        self.consumed.push((owner.to_string(), units, cost, cap_id.map(|c| c.to_string())));
        Ok(())
    }

    fn before_meter_close(&mut self, _owner: &str, _service_id: &str, deposit: u64) -> Result<()> {
        self.closed.push(deposit);
        Ok(())
    }
}

fn create_authorized_minters() -> NameSet {
    let mut minters = NameSet::new();
    minters.insert("authority".to_string());
    minters
}

#[test]
fn test_apply_mint() {
    let state = State::new();
    let minters = create_authorized_minters();
    let tx = SignedTx::new("authority".to_string(), 0, Transaction::Mint { to: "alice".to_string(), amount: 1000 });

    let new_state = apply(&state, &tx, &replay_ctx(), Some(&minters)).unwrap();
    let account = new_state.get_account("alice").unwrap();
    assert_eq!(account.balance(), 1000);
}

#[test]
fn test_apply_open_meter() {
    let mut state = State::new();
    state.accounts.insert("alice".to_string(), Account::with_balance(1000));
    let minters = create_authorized_minters();

    let tx = SignedTx::new(
        "alice".to_string(),
        0,
        Transaction::OpenMeter { owner: "alice".to_string(), service_id: "storage".to_string(), deposit: 100 },
    );

    let new_state = apply(&state, &tx, &replay_ctx(), Some(&minters)).unwrap();

    let account = new_state.get_account("alice").unwrap();
    assert_eq!(account.balance(), 900);
    assert_eq!(account.nonce(), 1);

    let meter = new_state.get_meter("alice", "storage").unwrap();
    assert!(meter.is_active());
    assert_eq!(meter.locked_deposit(), 100);
    assert_eq!(meter.total_units(), 0);
    assert_eq!(meter.total_spent(), 0);
}

#[test]
fn test_apply_open_meter_reactivate() {
    let mut state = State::new();
    state.accounts.insert("alice".to_string(), Account::with_balance(1000));

    let mut meter = Meter::new("alice".to_string(), "storage".to_string(), 50);
    meter.record_consumption(10, 25);
    meter.close();
    state.insert_meter(meter);

    let minters = create_authorized_minters();
    let tx = SignedTx::new(
        "alice".to_string(),
        0,
        Transaction::OpenMeter { owner: "alice".to_string(), service_id: "storage".to_string(), deposit: 100 },
    );

    let new_state = apply(&state, &tx, &replay_ctx(), Some(&minters)).unwrap();

    let meter = new_state.get_meter("alice", "storage").unwrap();
    assert!(meter.is_active());
    assert_eq!(meter.locked_deposit(), 100);
    assert_eq!(meter.total_units(), 10);
    assert_eq!(meter.total_spent(), 25);
}

#[test]
fn test_apply_consume() {
    let mut state = State::new();
    state.accounts.insert("alice".to_string(), Account::with_balance(1000));
    let meter = Meter::new("alice".to_string(), "storage".to_string(), 100);
    state.insert_meter(meter);

    let minters = create_authorized_minters();
    let tx = SignedTx::new(
        "alice".to_string(),
        0,
        Transaction::Consume {
            owner: "alice".to_string(),
            service_id: "storage".to_string(),
            units: 10,
            pricing: Pricing::UnitPrice(5),
        },
    );

    let new_state = apply(&state, &tx, &replay_ctx(), Some(&minters)).unwrap();

    let account = new_state.get_account("alice").unwrap();
    assert_eq!(account.balance(), 950);
    assert_eq!(account.nonce(), 1);

    let meter = new_state.get_meter("alice", "storage").unwrap();
    assert_eq!(meter.total_units(), 10);
    assert_eq!(meter.total_spent(), 50);
}

#[test]
fn test_apply_close_meter() {
    let mut state = State::new();
    state.accounts.insert("alice".to_string(), Account::with_balance(1000));
    let meter = Meter::new("alice".to_string(), "storage".to_string(), 100);
    state.insert_meter(meter);

    let minters = create_authorized_minters();
    let tx = SignedTx::new(
        "alice".to_string(),
        0,
        Transaction::CloseMeter { owner: "alice".to_string(), service_id: "storage".to_string() },
    );

    let new_state = apply(&state, &tx, &replay_ctx(), Some(&minters)).unwrap();

    let account = new_state.get_account("alice").unwrap();
    assert_eq!(account.balance(), 1100);
    assert_eq!(account.nonce(), 1);

    let meter = new_state.get_meter("alice", "storage").unwrap();
    assert!(!meter.is_active());
    assert_eq!(meter.locked_deposit(), 0);
}

#[test]
fn test_apply_invalid_transaction() {
    let state = State::new();
    let minters = create_authorized_minters();

    let tx = SignedTx::new("alice".to_string(), 0, Transaction::Mint { to: "bob".to_string(), amount: 100 });

    let result = apply(&state, &tx, &replay_ctx(), Some(&minters));
    assert!(result.is_err());
}

#[test]
fn test_apply_end_to_end_flow() {
    let mut state = State::new();
    let minters = create_authorized_minters();

    let tx1 = SignedTx::new("authority".to_string(), 0, Transaction::Mint { to: "alice".to_string(), amount: 1000 });
    state = apply(&state, &tx1, &replay_ctx(), Some(&minters)).unwrap();
    assert_eq!(state.get_account("alice").unwrap().balance(), 1000);

    let tx2 = SignedTx::new(
        "alice".to_string(),
        0,
        Transaction::OpenMeter { owner: "alice".to_string(), service_id: "storage".to_string(), deposit: 100 },
    );
    state = apply(&state, &tx2, &replay_ctx(), Some(&minters)).unwrap();
    assert_eq!(state.get_account("alice").unwrap().balance(), 900);

    let tx3 = SignedTx::new(
        "alice".to_string(),
        1,
        Transaction::Consume {
            owner: "alice".to_string(),
            service_id: "storage".to_string(),
            units: 10,
            pricing: Pricing::UnitPrice(5),
        },
    );
    state = apply(&state, &tx3, &replay_ctx(), Some(&minters)).unwrap();
    assert_eq!(state.get_account("alice").unwrap().balance(), 850);
    assert_eq!(state.get_meter("alice", "storage").unwrap().total_units(), 10);

    let tx4 = SignedTx::new(
        "alice".to_string(),
        2,
        Transaction::CloseMeter { owner: "alice".to_string(), service_id: "storage".to_string() },
    );
    state = apply(&state, &tx4, &replay_ctx(), Some(&minters)).unwrap();
    assert_eq!(state.get_account("alice").unwrap().balance(), 950);
    assert!(!state.get_meter("alice", "storage").unwrap().is_active());
}

#[test]
fn test_pre_hook_before_consume_blocks_execution() {
    let mut state = State::new();
    state.accounts.insert("alice".to_string(), Account::with_balance(1000));
    state.insert_meter(Meter::new("alice".to_string(), "storage".to_string(), 100));
    let minters = create_authorized_minters();

    let tx = SignedTx::new(
        "alice".to_string(),
        0,
        Transaction::Consume {
            owner: "alice".to_string(),
            service_id: "storage".to_string(),
            units: 10,
            pricing: Pricing::UnitPrice(5),
        },
    );

    let mut sm = StateMachine::new(RejectConsumeHook);
    let result = sm.apply(&state, &tx, &replay_ctx(), Some(&minters));
    assert!(result.is_err());
    match &result.unwrap_err() {
        Error::StateError(msg) => assert!(msg.contains("before_consume")),
        _ => panic!("expected StateError from pre-hook"),
    }
    assert_eq!(state.get_account("alice").unwrap().balance(), 1000);
    assert_eq!(state.get_meter("alice", "storage").unwrap().total_units(), 0);
}

#[test]
fn test_pre_hook_before_meter_open_blocks_execution() {
    let mut state = State::new();
    state.accounts.insert("alice".to_string(), Account::with_balance(1000));
    let minters = create_authorized_minters();

    let tx = SignedTx::new(
        "alice".to_string(),
        0,
        Transaction::OpenMeter { owner: "alice".to_string(), service_id: "storage".to_string(), deposit: 100 },
    );

    let mut sm = StateMachine::new(RejectOpenMeterHook);
    let result = sm.apply(&state, &tx, &replay_ctx(), Some(&minters));
    assert!(result.is_err());
    match &result.unwrap_err() {
        Error::StateError(msg) => assert!(msg.contains("before_meter_open")),
        _ => panic!("expected StateError from pre-hook"),
    }
    assert_eq!(state.get_account("alice").unwrap().balance(), 1000);
    assert!(state.get_meter("alice", "storage").is_none());
}

#[test]
fn test_state_machine_hook_observes_consume_and_close() {
    let mut state = State::new();
    state.accounts.insert("alice".to_string(), Account::with_balance(1000));
    state.insert_meter(Meter::new("alice".to_string(), "storage".to_string(), 100));
    let mut sm = StateMachine::new(RecordingHook::default());
    let consume = SignedTx::new(
        "alice".to_string(),
        0,
        Transaction::Consume {
            owner: "alice".to_string(),
            service_id: "storage".to_string(),
            units: 3,
            pricing: Pricing::UnitPrice(7),
        },
    );
    state = sm.apply(&state, &consume, &replay_ctx(), None).unwrap();
    let close = SignedTx::new(
        "alice".to_string(),
        1,
        Transaction::CloseMeter { owner: "alice".to_string(), service_id: "storage".to_string() },
    );
    state = sm.apply(&state, &close, &replay_ctx(), None).unwrap();
    let hook = sm.into_hook();
    assert_eq!(hook.consumed, vec![("alice".to_string(), 3, 21, None)]);
    assert_eq!(hook.closed, vec![100]);
    assert_eq!(state.get_account("alice").unwrap().balance(), 1000 - 21 + 100);
}

#[test]
fn test_noop_hook_state_machine_matches_apply() {
    let state = State::new();
    let tx = SignedTx::new("authority".to_string(), 0, Transaction::Mint { to: "alice".to_string(), amount: 5 });
    let mut sm = StateMachine::new(NoOpHook);
    let a = sm.apply(&state, &tx, &replay_ctx(), None).unwrap();
    let b = apply(&state, &tx, &replay_ctx(), None).unwrap();
    assert_eq!(a, b);
}

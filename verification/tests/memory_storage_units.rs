use metering_chain::replay::{load_tx_slice, replay_to_tip, replay_up_to};
use metering_chain::state::State;
use metering_chain::storage::{MemoryStorage, Storage};
use metering_chain::tx::{Pricing, SignedTx, Transaction};

fn log() -> Vec<SignedTx> {
    vec![
        SignedTx::new("authority".to_string(), 0, Transaction::Mint { to: "alice".to_string(), amount: 500 }),
        SignedTx::new(
            "alice".to_string(),
            0,
            Transaction::OpenMeter { owner: "alice".to_string(), service_id: "svc".to_string(), deposit: 50 },
        ),
        SignedTx::new(
            "alice".to_string(),
            1,
            Transaction::Consume {
                owner: "alice".to_string(),
                service_id: "svc".to_string(),
                units: 4,
                pricing: Pricing::UnitPrice(3),
            },
        ),
    ]
}

#[test]
fn test_memory_storage_round_trip() {
    let mut st = MemoryStorage::new();
    assert!(st.load_state().unwrap().is_none());
    assert!(st.load_txs_from(0).unwrap().is_empty());
    for t in log() {
        st.append_tx(&t).unwrap();
    }
    assert_eq!(st.load_txs_from(1).unwrap(), log()[1..].to_vec());
    assert!(st.load_txs_from(9).unwrap().is_empty());
    assert_eq!(load_tx_slice(&st, 2).unwrap(), log()[2..].to_vec());
}

#[test]
fn test_replay_from_memory_storage_with_and_without_snapshot() {
    let mut st = MemoryStorage::new();
    for t in log() {
        st.append_tx(&t).unwrap();
    }
    let (full, n) = replay_to_tip(&st).unwrap();
    assert_eq!(n, 3);
    assert_eq!(full.get_meter("alice", "svc").unwrap().total_spent(), 12);
    let upto = replay_up_to(&st, 2).unwrap();
    st.persist_state(&upto, 2).unwrap();
    let (resumed, m) = replay_to_tip(&st).unwrap();
    assert_eq!(m, 3);
    assert_eq!(resumed, full);
    assert_eq!(st.load_state().unwrap().unwrap().1, 2);
    assert_eq!(replay_up_to(&st, 0).unwrap(), State::new());
}

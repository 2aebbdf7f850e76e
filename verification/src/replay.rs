//! Replay: rebuild the state from a snapshot and the transaction log, deterministically,
//! and summarize a settlement window for evidence-backed dispute resolution.
use crate::error::{Error, ErrorKind, Result};
use crate::evidence::{evidence_hash_of, tx_slice_hash, txs_bytes, ReplaySummary};
use crate::state::account::{sat_add, sat_sub};
use crate::state::apply::{apply, apply_is_safe, apply_result, apply_safe};
use crate::state::{empty_state, State, StateView};
use crate::storage::{cursor_of, log_from, Storage};
use crate::text::owned;
use crate::tx::transaction::{SignedTx, SignedTxView, Transaction, TransactionView};
use crate::tx::validation::{ValidationContext, ValidationMode};
use crate::wallet::{signature_error, verify_signature};
use vstd::prelude::*;

verus! {

/// The replay context of the transaction at position `id`.
pub open spec fn replay_ctx_at(id: u64) -> ValidationContext {
    ValidationContext { mode: ValidationMode::Replay, now: None, max_age: None, next_tx_id: Some(id) }
}

/// Replaying one transaction at position `id`: a signature, where present, must verify; a
/// transaction whose application cannot complete is refused (StateError); then it is applied
/// without authority checks.
#[verifier::opaque]
pub open spec fn replay_step(s: StateView, t: SignedTxView, id: u64) -> core::result::Result<StateView, ErrorKind> {
    if t.signature is Some && signature_error(t) is Some {
        Err(signature_error(t)->0)
    } else if !apply_safe(s, t, replay_ctx_at(id)) {
        Err(ErrorKind::StateError)
    } else {
        apply_result(s, t, replay_ctx_at(id), None)
    }
}

/// Replaying `txs` in order from `s`, the first at position `start` (positions saturate).
pub open spec fn replay_seq(s: StateView, txs: Seq<SignedTxView>, start: u64) -> core::result::Result<StateView, ErrorKind>
    decreases txs.len(),
{
    if txs.len() == 0 {
        Ok(s)
    } else {
        match replay_seq(s, txs.drop_last(), start) {
            Err(e) => Err(e),
            Ok(m) => replay_step(m, txs.last(), sat_add(start, (txs.len() - 1) as u64)),
        }
    }
}

/// The views of a slice of transactions.
pub open spec fn tx_views(txs: Seq<SignedTx>) -> Seq<SignedTxView> {
    txs.map_values(|t: SignedTx| t@)
}

/// Once replay fails on a prefix, it fails the same way on the whole log.
proof fn lemma_replay_error_persists(s: StateView, txs: Seq<SignedTxView>, j: int, start: u64)
    requires
        0 <= j <= txs.len(),
        replay_seq(s, txs.take(j), start) is Err,
    ensures
        replay_seq(s, txs, start) == replay_seq(s, txs.take(j), start),
    decreases txs.len(),
{
    if j == txs.len() {
        assert(txs.take(j) =~= txs);
    } else {
        assert(txs.drop_last().take(j) =~= txs.take(j));
        lemma_replay_error_persists(s, txs.drop_last(), j, start);
    }
}

/// A failed replay stays failed: when replaying `a` fails, replaying `a` followed by any
/// further transactions fails with the same error.
pub proof fn law_replay_failure_persists(s: StateView, a: Seq<SignedTxView>, b: Seq<SignedTxView>, start: u64)
    requires
        replay_seq(s, a, start) is Err,
    ensures
        replay_seq(s, a + b, start) == replay_seq(s, a, start),
{
    assert((a + b).take(a.len() as int) =~= a);
    lemma_replay_error_persists(s, a + b, a.len() as int, start);
}

/// Replay one transaction at position `id`.
fn replay_one(s: &State, tx: &SignedTx, id: u64) -> (r: Result<State>)
    requires
        s.wf(),
    ensures
        match replay_step(s@, tx@, id) {
            Ok(v) => r matches Ok(ns) && ns.wf() && ns@ == v,
            Err(k) => r matches Err(e) && e.kind() == k,
        },
{
    proof {
        reveal(replay_step);
    }
    if tx.signature.is_some() {
        verify_signature(tx)?;
    }
    let ctx = ValidationContext::replay_for_tx(id);
    if !apply_is_safe(s, tx, &ctx) {
        return Err(Error::StateError(owned("Transaction cannot be applied: its nonce or settlement split overflows")));
    }
    apply(s, tx, &ctx, None)
}

/// Replay a slice of transactions from `state`; the first has position `start_tx_id`.
pub fn replay_tx_slice(state: &State, txs: &[SignedTx], start_tx_id: u64) -> (r: Result<State>)
    requires
        state.wf(),
    ensures
        match replay_seq(state@, tx_views(txs@), start_tx_id) {
            Ok(v) => r matches Ok(ns) && ns.wf() && ns@ == v,
            Err(k) => r matches Err(e) && e.kind() == k,
        },
{
    let mut s = state.duplicate();
    let mut i: usize = 0;
    while i < txs.len()
        invariant
            i <= txs@.len(),
            s.wf(),
            replay_seq(state@, tx_views(txs@.take(i as int)), start_tx_id) == Ok::<StateView, ErrorKind>(s@),
        decreases txs@.len() - i,
    {
        proof {
            let pre = tx_views(txs@.take(i + 1));
            assert(pre.drop_last() =~= tx_views(txs@.take(i as int)));
            assert(pre.last() == txs@[i as int]@);
            assert(pre.len() - 1 == i);
        }
        match replay_one(&s, &txs[i], start_tx_id.saturating_add(i as u64)) {
            Ok(ns) => {
                s = ns;
            },
            Err(e) => {
                proof {
                    let pre = tx_views(txs@.take(i + 1));
                    assert(pre.drop_last() =~= tx_views(txs@.take(i as int)));
                    assert(pre.last() == txs@[i as int]@);
                    assert(replay_seq(state@, pre, start_tx_id) is Err);
                    assert(tx_views(txs@).take(i + 1) =~= pre);
                    lemma_replay_error_persists(state@, tx_views(txs@), i + 1, start_tx_id);
                }
                return Err(e);
            },
        }
        i = i + 1;
    }
    proof {
        assert(txs@.take(i as int) =~= txs@);
    }
    Ok(s)
}

/// Replay from a loaded snapshot (or genesis without one) through the transactions that
/// follow it: the state and the position after the last transaction.
pub open spec fn replay_from_view(base: StateView, start: u64, txs: Seq<SignedTxView>) -> core::result::Result<(StateView, u64), ErrorKind> {
    if start + txs.len() > u64::MAX {
        Err(ErrorKind::StateError)
    } else {
        match replay_seq(base, txs, start) {
            Ok(v) => Ok((v, (start + txs.len()) as u64)),
            Err(k) => Err(k),
        }
    }
}

/// Replay what storage handed back: the snapshot (whose tables must each hold a key once)
/// and the transactions after it.
pub fn replay_loaded(snapshot: Option<(State, u64)>, txs: &[SignedTx]) -> (r: Result<(State, u64)>)
    ensures
        match snapshot {
            Some((s, n)) => if !s.wf() {
                r matches Err(e) && e.kind() == ErrorKind::StateError
            } else {
                match replay_from_view(s@, n, tx_views(txs@)) {
                    Ok((v, m)) => r matches Ok((ns, k)) && ns.wf() && ns@ == v && k == m,
                    Err(kind) => r matches Err(e) && e.kind() == kind,
                }
            },
            None => match replay_from_view(empty_state(), 0, tx_views(txs@)) {
                Ok((v, m)) => r matches Ok((ns, k)) && ns.wf() && ns@ == v && k == m,
                Err(kind) => r matches Err(e) && e.kind() == kind,
            },
        },
{
    let (base, start) = match snapshot {
        Some((s, n)) => {
            if !s.check_wf() {
                return Err(Error::StateError(owned("Snapshot holds a key twice")));
            }
            (s, n)
        },
        None => (State::new(), 0u64),
    };
    let count = txs.len() as u64;
    if start > u64::MAX - count {
        return Err(Error::StateError(owned("Transaction position overflows")));
    }
    let st = replay_tx_slice(&base, txs, start)?;
    Ok((st, start + count))
}

/// The log position replay resumes from: the snapshot's next position, 0 without one.
pub fn snapshot_cursor(snapshot: &Option<(State, u64)>) -> (n: u64)
    ensures
        n == match snapshot {
            Some((_, k)) => *k,
            None => 0,
        },
{
    match snapshot {
        Some((_, k)) => *k,
        None => 0,
    }
}

/// What replaying a loaded snapshot (genesis without one) and the transactions after it
/// gives: the state and the position after the last transaction.
pub open spec fn loaded_replay(
    snapshot: Option<(StateView, u64)>,
    txs: Seq<SignedTxView>,
) -> core::result::Result<(StateView, u64), ErrorKind> {
    match snapshot {
        Some((s, n)) => replay_from_view(s, n, txs),
        None => replay_from_view(empty_state(), 0, txs),
    }
}

/// Replay the log from storage to its tip: from the snapshot if there is one (replaying the
/// transactions after it), else from genesis. Signed transactions must verify. Whether
/// storage can be read is up to storage; what comes back is the replay of the snapshot and
/// transactions it handed over.
pub fn replay_to_tip<S: Storage>(storage: &S) -> (r: Result<(State, u64)>)
    ensures
        r matches Ok((s, n)) ==> s.wf() && exists|snap: Option<(StateView, u64)>, log: Seq<SignedTxView>|
            #[trigger] loaded_replay(snap, log) == Ok::<(StateView, u64), ErrorKind>((s@, n)),
        S::models_contents() ==> (r matches Ok((s, n)) ==> loaded_replay(
            storage.stored_snapshot(),
            log_from(storage.stored_log(), cursor_of(storage.stored_snapshot())),
        ) == Ok::<(StateView, u64), ErrorKind>((s@, n))),
{
    let snapshot = storage.load_state()?;
    let from = snapshot_cursor(&snapshot);
    let txs = storage.load_txs_from(from)?;
    let ghost snap: Option<(StateView, u64)> = match &snapshot {
        Some((st, n)) => Some((st@, *n)),
        None => None,
    };
    let ghost log = tx_views(txs@);
    let r = replay_loaded(snapshot, txs.as_slice());
    proof {
        if let Ok((st, n)) = &r {
            assert(loaded_replay(snap, log) == Ok::<(StateView, u64), ErrorKind>((st@, *n)));
        }
    }
    r
}

/// The transactions of the log from position `from_tx_id` on.
pub fn load_tx_slice<S: Storage>(storage: &S, from_tx_id: u64) -> (r: Result<Vec<SignedTx>>)
    ensures
        S::models_contents() ==> (r matches Ok(v) ==> tx_views(v@) == log_from(storage.stored_log(), from_tx_id)),
{
    storage.load_txs_from(from_tx_id)
}

/// The first `n` transactions (all of them when fewer).
pub open spec fn first_txs(txs: Seq<SignedTxView>, n: u64) -> Seq<SignedTxView> {
    if n < txs.len() {
        txs.take(n as int)
    } else {
        txs
    }
}

/// Replay from genesis the transactions before position `up_to_tx_id`.
pub fn replay_prefix(txs: &[SignedTx], up_to_tx_id: u64) -> (r: Result<State>)
    ensures
        match replay_seq(empty_state(), first_txs(tx_views(txs@), up_to_tx_id), 0) {
            Ok(v) => r matches Ok(ns) && ns.wf() && ns@ == v,
            Err(k) => r matches Err(e) && e.kind() == k,
        },
{
    let n: usize = if (up_to_tx_id as u128) < (txs.len() as u128) {
        up_to_tx_id as usize
    } else {
        txs.len()
    };
    let prefix = &txs[0..n];
    proof {
        assert(prefix@ =~= txs@.take(n as int));
        assert(tx_views(txs@.take(n as int)) =~= first_txs(tx_views(txs@), up_to_tx_id));
    }
    let genesis = State::new();
    replay_tx_slice(&genesis, prefix, 0)
}

/// What replaying from genesis the first `up_to` transactions of `log` gives.
pub open spec fn prefix_replay(log: Seq<SignedTxView>, up_to: u64) -> core::result::Result<StateView, ErrorKind> {
    replay_seq(empty_state(), first_txs(log, up_to), 0)
}

/// Replay the log from genesis up to (not including) position `up_to_tx_id`. Whether
/// storage can be read is up to storage; what comes back is the replay from genesis of at
/// most `up_to_tx_id` transactions of the log it handed over.
pub fn replay_up_to<S: Storage>(storage: &S, up_to_tx_id: u64) -> (r: Result<State>)
    ensures
        r matches Ok(s) ==> s.wf() && exists|log: Seq<SignedTxView>|
            #[trigger] prefix_replay(log, up_to_tx_id) == Ok::<StateView, ErrorKind>(s@),
        S::models_contents() ==> (r matches Ok(s) ==> prefix_replay(storage.stored_log(), up_to_tx_id)
            == Ok::<StateView, ErrorKind>(s@)),
{
    let all = storage.load_txs_from(0)?;
    let ghost log = tx_views(all@);
    proof {
        if S::models_contents() {
            assert(log_from(storage.stored_log(), 0) =~= storage.stored_log());
        }
    }
    let r = replay_prefix(all.as_slice(), up_to_tx_id);
    proof {
        if let Ok(st) = &r {
            assert(prefix_replay(log, up_to_tx_id) == Ok::<StateView, ErrorKind>(st@));
        }
    }
    r
}

/// Total spent on the meter of `(owner, service_id)`, 0 without one.
pub open spec fn spent_on(s: StateView, owner: Seq<char>, service_id: Seq<char>) -> u64 {
    if s.meters.contains_key((owner, service_id)) {
        s.meters[(owner, service_id)].total_spent
    } else {
        0
    }
}

/// The window `[from, to)` of the transactions following position `from`.
pub open spec fn window_txs(txs: Seq<SignedTxView>, from: u64, to: u64) -> Seq<SignedTxView> {
    first_txs(txs, sat_sub(to, from))
}

/// The summary of a replayed window: its bounds and transaction count, the gross spend on
/// the meter over the window, and the settlement's recorded split; with the evidence hash of
/// the window's transactions.
pub open spec fn window_summary(
    state_from: StateView,
    txs: Seq<SignedTxView>,
    from: u64,
    to: u64,
    owner: Seq<char>,
    service_id: Seq<char>,
    operator_share: u64,
    protocol_fee: u64,
    reserve_locked: u64,
) -> core::result::Result<(ReplaySummary, Seq<char>), ErrorKind> {
    let w = window_txs(txs, from, to);
    match replay_seq(state_from, w, from) {
        Err(k) => Err(k),
        Ok(state_to) => Ok(
            (
                ReplaySummary {
                    from_tx_id: from,
                    to_tx_id: to,
                    tx_count: w.len() as u64,
                    gross_spent: sat_sub(
                        spent_on(state_to, owner, service_id),
                        spent_on(state_from, owner, service_id),
                    ),
                    operator_share,
                    protocol_fee,
                    reserve_locked,
                },
                evidence_hash_of(txs_bytes(w)),
            ),
        ),
    }
}

/// Summarize the window `[from_tx_id, to_tx_id)` given the state at `from_tx_id` and the
/// transactions from there on.
pub fn summarize_window(
    state_from: &State,
    txs: &[SignedTx],
    from_tx_id: u64,
    to_tx_id: u64,
    owner: &str,
    service_id: &str,
    operator_share: u64,
    protocol_fee: u64,
    reserve_locked: u64,
) -> (r: Result<(ReplaySummary, String)>)
    requires
        state_from.wf(),
    ensures
        match window_summary(
            state_from@,
            tx_views(txs@),
            from_tx_id,
            to_tx_id,
            owner@,
            service_id@,
            operator_share,
            protocol_fee,
            reserve_locked,
        ) {
            Ok((sm, h)) => r matches Ok((s2, h2)) && s2 == sm && h2@ == h,
            Err(k) => r matches Err(e) && e.kind() == k,
        },
{
    let span = to_tx_id.saturating_sub(from_tx_id);
    let n: usize = if (span as u128) < (txs.len() as u128) {
        span as usize
    } else {
        txs.len()
    };
    let window = &txs[0..n];
    proof {
        assert(window@ =~= txs@.take(n as int));
        assert(tx_views(txs@.take(n as int)) =~= window_txs(tx_views(txs@), from_tx_id, to_tx_id));
    }
    let tx_count = n as u64;
    let state_to = replay_tx_slice(state_from, window, from_tx_id)?;
    let spent_from = match state_from.get_meter(owner, service_id) {
        Some(m) => m.total_spent(),
        None => 0,
    };
    let spent_to = match state_to.get_meter(owner, service_id) {
        Some(m) => m.total_spent(),
        None => 0,
    };
    let gross_spent = spent_to.saturating_sub(spent_from);
    let evidence_hash = tx_slice_hash(window);
    let summary = ReplaySummary::new(
        from_tx_id,
        to_tx_id,
        tx_count,
        gross_spent,
        operator_share,
        protocol_fee,
        reserve_locked,
    );
    Ok((summary, evidence_hash))
}

/// The operator's part of a window's gross spend under the default split: 90%, rounded down.
pub open spec fn default_operator_share(gross: u64) -> u64 {
    (gross * 90 / 100) as u64
}

/// The settlement proposal for the window `[from, to)` of a log whose next position is `tip`,
/// from the state at `from` and the transactions from there on: the window must be non-empty,
/// lie within the log and carry spend on the meter; the gross spend is split 90/10 between
/// operator and protocol, nothing is reserved, and the evidence is the window's hash.
pub open spec fn window_proposal(
    state_from: StateView,
    txs: Seq<SignedTxView>,
    tip: u64,
    owner: Seq<char>,
    service_id: Seq<char>,
    window_id: Seq<char>,
    from: u64,
    to: u64,
) -> core::result::Result<TransactionView, ErrorKind> {
    if to <= from || to > tip {
        Err(ErrorKind::InvalidTransaction)
    } else {
        match window_summary(state_from, txs, from, to, owner, service_id, 0, 0, 0) {
            Err(k) => Err(k),
            Ok((sm, h)) => if sm.gross_spent == 0 {
                Err(ErrorKind::InvalidTransaction)
            } else {
                Ok(
                    TransactionView::ProposeSettlement {
                        owner,
                        service_id,
                        window_id,
                        from_tx_id: from,
                        to_tx_id: to,
                        gross_spent: sm.gross_spent,
                        operator_share: default_operator_share(sm.gross_spent),
                        protocol_fee: (sm.gross_spent - default_operator_share(sm.gross_spent)) as u64,
                        reserve_locked: 0,
                        evidence_hash: h,
                    },
                )
            },
        }
    }
}

/// Build the settlement proposal for the window `[from_tx_id, to_tx_id)`, given the state at
/// `from_tx_id`, the transactions from there on and the log's next position.
pub fn propose_window(
    state_from: &State,
    txs: &[SignedTx],
    tip_next_tx_id: u64,
    owner: &str,
    service_id: &str,
    window_id: &str,
    from_tx_id: u64,
    to_tx_id: u64,
) -> (r: Result<Transaction>)
    requires
        state_from.wf(),
    ensures
        match window_proposal(
            state_from@,
            tx_views(txs@),
            tip_next_tx_id,
            owner@,
            service_id@,
            window_id@,
            from_tx_id,
            to_tx_id,
        ) {
            Ok(t) => r matches Ok(k) && k@ == t,
            Err(k) => r matches Err(e) && e.kind() == k,
        },
{
    if to_tx_id <= from_tx_id {
        return Err(Error::InvalidTransaction(owned("to_tx_id must be greater than from_tx_id")));
    }
    if to_tx_id > tip_next_tx_id {
        return Err(Error::InvalidTransaction(owned("to_tx_id exceeds the log tip; the window must lie within applied transactions")));
    }
    let (summary, evidence_hash) = summarize_window(state_from, txs, from_tx_id, to_tx_id, owner, service_id, 0, 0, 0)?;
    let gross_spent = summary.gross_spent;
    if gross_spent == 0 {
        return Err(Error::InvalidTransaction(owned("No usage in window: gross_spent is 0")));
    }
    let wide: u128 = (gross_spent as u128) * 90 / 100;
    proof {
        assert((gross_spent as int) * 90 / 100 <= gross_spent as int) by (nonlinear_arith);
    }
    let operator_share = wide as u64;
    let protocol_fee = gross_spent - operator_share;
    Ok(Transaction::ProposeSettlement {
        owner: owned(owner),
        service_id: owned(service_id),
        window_id: owned(window_id),
        from_tx_id,
        to_tx_id,
        gross_spent,
        operator_share,
        protocol_fee,
        reserve_locked: 0,
        evidence_hash,
    })
}

/// The summary of the window `[from, to)`, with the state at `from` replayed from genesis
/// over the first `from` transactions of `log`, and `rest` the transactions from `from` on.
pub open spec fn logged_window_summary(
    log: Seq<SignedTxView>,
    rest: Seq<SignedTxView>,
    from: u64,
    to: u64,
    owner: Seq<char>,
    service_id: Seq<char>,
    operator_share: u64,
    protocol_fee: u64,
    reserve_locked: u64,
) -> core::result::Result<(ReplaySummary, Seq<char>), ErrorKind> {
    match prefix_replay(log, from) {
        Err(k) => Err(k),
        Ok(state_from) => window_summary(
            state_from,
            rest,
            from,
            to,
            owner,
            service_id,
            operator_share,
            protocol_fee,
            reserve_locked,
        ),
    }
}

/// Replay the settlement window `[from_tx_id, to_tx_id)` from storage and summarize it. The
/// spend is replayed; the split is the settlement's, passed in for comparison.
pub fn replay_slice_to_summary<S: Storage>(
    storage: &S,
    from_tx_id: u64,
    to_tx_id: u64,
    owner: &str,
    service_id: &str,
    operator_share: u64,
    protocol_fee: u64,
    reserve_locked: u64,
) -> (r: Result<(ReplaySummary, String)>)
    ensures
        r matches Ok((s, h)) ==> exists|log: Seq<SignedTxView>, rest: Seq<SignedTxView>|
            #[trigger] logged_window_summary(
                log,
                rest,
                from_tx_id,
                to_tx_id,
                owner@,
                service_id@,
                operator_share,
                protocol_fee,
                reserve_locked,
            ) == Ok::<(ReplaySummary, Seq<char>), ErrorKind>((s, h@)),
        S::models_contents() ==> (r matches Ok((s, h)) ==> logged_window_summary(
            storage.stored_log(),
            log_from(storage.stored_log(), from_tx_id),
            from_tx_id,
            to_tx_id,
            owner@,
            service_id@,
            operator_share,
            protocol_fee,
            reserve_locked,
        ) == Ok::<(ReplaySummary, Seq<char>), ErrorKind>((s, h@))),
{
    let state_from = replay_up_to(storage, from_tx_id)?;
    let ghost log = choose|log: Seq<SignedTxView>|
        #[trigger] prefix_replay(log, from_tx_id) == Ok::<StateView, ErrorKind>(state_from@);
    let txs = storage.load_txs_from(from_tx_id)?;
    let ghost rest = tx_views(txs@);
    let r = summarize_window(
        &state_from,
        txs.as_slice(),
        from_tx_id,
        to_tx_id,
        owner,
        service_id,
        operator_share,
        protocol_fee,
        reserve_locked,
    );
    proof {
        if let Ok((sm, h)) = &r {
            assert(logged_window_summary(
                log,
                rest,
                from_tx_id,
                to_tx_id,
                owner@,
                service_id@,
                operator_share,
                protocol_fee,
                reserve_locked,
            ) == Ok::<(ReplaySummary, Seq<char>), ErrorKind>((*sm, h@)));
            if S::models_contents() {
                assert(logged_window_summary(
                    storage.stored_log(),
                    log_from(storage.stored_log(), from_tx_id),
                    from_tx_id,
                    to_tx_id,
                    owner@,
                    service_id@,
                    operator_share,
                    protocol_fee,
                    reserve_locked,
                ) == Ok::<(ReplaySummary, Seq<char>), ErrorKind>((*sm, h@)));
            }
        }
    }
    r
}

/// Snapshot replay: replaying a log in two parts, the second from the state the first
/// reached and from the position after it, gives what replaying it whole gives.
pub proof fn law_replay_resumes_from_snapshot(s: StateView, a: Seq<SignedTxView>, b: Seq<SignedTxView>, start: u64)
    requires
        start + a.len() + b.len() <= u64::MAX,
        replay_seq(s, a, start) is Ok,
    ensures
        replay_seq(s, a + b, start) == replay_seq(replay_seq(s, a, start)->Ok_0, b, (start + a.len()) as u64),
    decreases b.len(),
{
    if b.len() == 0 {
        assert(a + b =~= a);
    } else {
        law_replay_resumes_from_snapshot(s, a, b.drop_last(), start);
        assert((a + b).drop_last() =~= a + b.drop_last());
        assert((a + b).last() == b.last());
    }
}

} // verus!

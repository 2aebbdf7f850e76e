//! Value accounting: what balances, locked deposits and recorded spend add up to, and how
//! accepted metering transactions move value without creating or losing any.
use crate::error::ErrorKind;
use crate::state::account::{sat_add, Account};
use crate::state::apply::{
    apply_result, apply_safe, bump_nonce, credit, debit, with_account, with_meter,
};
use crate::state::meter::MeterView;
use crate::state::{account_or_new, StateView};
use crate::tx::transaction::{SignedTxView, TransactionView};
use crate::tx::validation::{validation_result, ValidationContext};
use vstd::prelude::*;
use vstd::set::fold::*;

verus! {

/// Adds the weight of each key to the running total.
pub open spec fn adder<K>(w: spec_fn(K) -> int) -> spec_fn(int, K) -> int {
    |acc: int, k: K| acc + w(k)
}

/// The sum of `w` over the keys in `d`.
pub open spec fn sum_over<K>(d: Set<K>, w: spec_fn(K) -> int) -> int {
    d.fold(0int, adder(w))
}

proof fn lemma_adder_commutative<K>(w: spec_fn(K) -> int)
    ensures
        is_fun_commutative(adder(w)),
{
    assert forall|a1: K, a2: K, b: int| #[trigger] adder(w)(adder(w)(b, a2), a1) == adder(w)(adder(w)(b, a1), a2) by {
    }
}

/// Removing a key takes its weight off the sum.
proof fn lemma_sum_remove<K>(d: Set<K>, w: spec_fn(K) -> int, k: K)
    requires
        d.finite(),
        d.contains(k),
    ensures
        sum_over(d, w) == sum_over(d.remove(k), w) + w(k),
{
    lemma_adder_commutative(w);
    lemma_fold_insert(d.remove(k), 0int, adder(w), k);
    assert(d.remove(k).insert(k) =~= d);
}

/// Weights that agree on the keys give the same sum.
proof fn lemma_sum_agree<K>(d: Set<K>, w1: spec_fn(K) -> int, w2: spec_fn(K) -> int)
    requires
        d.finite(),
        forall|k: K| d.contains(k) ==> w1(k) == w2(k),
    ensures
        sum_over(d, w1) == sum_over(d, w2),
    decreases d.len(),
{
    if d.len() == 0 {
        assert(d =~= Set::empty());
        lemma_fold_empty(0int, adder(w1));
        lemma_fold_empty(0int, adder(w2));
    } else {
        let k = d.choose();
        assert(d.contains(k));
        lemma_sum_agree(d.remove(k), w1, w2);
        lemma_sum_remove(d, w1, k);
        lemma_sum_remove(d, w2, k);
    }
}

/// Replacing the weight of one key (adding it when absent) changes the sum by the difference.
proof fn lemma_sum_update<K>(d: Set<K>, w1: spec_fn(K) -> int, w2: spec_fn(K) -> int, k: K)
    requires
        d.finite(),
        forall|j: K| d.contains(j) && j != k ==> w1(j) == w2(j),
    ensures
        sum_over(d.insert(k), w2) == sum_over(d, w1) - (if d.contains(k) { w1(k) } else { 0 }) + w2(k),
{
    let r = d.remove(k);
    lemma_sum_agree(r, w1, w2);
    lemma_sum_remove(d.insert(k), w2, k);
    assert(d.insert(k).remove(k) =~= r);
    if d.contains(k) {
        lemma_sum_remove(d, w1, k);
    } else {
        assert(r =~= d);
    }
}

/// The balance of each account.
pub open spec fn balance_weight(m: Map<Seq<char>, Account>) -> spec_fn(Seq<char>) -> int {
    |a: Seq<char>| m[a].balance as int
}

/// The deposit locked in each meter.
pub open spec fn locked_weight(m: Map<(Seq<char>, Seq<char>), MeterView>) -> spec_fn((Seq<char>, Seq<char>)) -> int {
    |k: (Seq<char>, Seq<char>)| m[k].locked_deposit as int
}

/// The spend recorded on each meter.
pub open spec fn spent_weight(m: Map<(Seq<char>, Seq<char>), MeterView>) -> spec_fn((Seq<char>, Seq<char>)) -> int {
    |k: (Seq<char>, Seq<char>)| m[k].total_spent as int
}

/// Funds held in account balances.
pub open spec fn balances_total(s: StateView) -> int {
    sum_over(s.accounts.dom(), balance_weight(s.accounts))
}

/// Deposits locked in meters.
pub open spec fn locked_total(s: StateView) -> int {
    sum_over(s.meters.dom(), locked_weight(s.meters))
}

/// Spend recorded on meters.
pub open spec fn spent_total(s: StateView) -> int {
    sum_over(s.meters.dom(), spent_weight(s.meters))
}

/// The accounted value: balances, locked deposits and recorded spend.
pub open spec fn accounted_value(s: StateView) -> int {
    balances_total(s) + locked_total(s) + spent_total(s)
}

/// The state's tables are finite, as the views of tables are.
pub open spec fn finite_tables(s: StateView) -> bool {
    s.accounts.dom().finite() && s.meters.dom().finite()
}

/// The meter of `k`, or an empty one when absent, as far as value goes: its lock and spend.
pub open spec fn meter_value(s: StateView, k: (Seq<char>, Seq<char>)) -> (int, int) {
    if s.meters.contains_key(k) {
        (s.meters[k].locked_deposit as int, s.meters[k].total_spent as int)
    } else {
        (0, 0)
    }
}

proof fn lemma_with_account_value(s: StateView, a: Seq<char>, acct: Account)
    requires
        finite_tables(s),
    ensures
        finite_tables(with_account(s, a, acct)),
        balances_total(with_account(s, a, acct)) == balances_total(s) - account_or_new(s, a).balance
            + acct.balance,
        locked_total(with_account(s, a, acct)) == locked_total(s),
        spent_total(with_account(s, a, acct)) == spent_total(s),
{
    let m2 = s.accounts.insert(a, acct);
    assert(m2.dom() =~= s.accounts.dom().insert(a));
    lemma_sum_update(s.accounts.dom(), balance_weight(s.accounts), balance_weight(m2), a);
}

proof fn lemma_with_meter_value(s: StateView, owner: Seq<char>, service_id: Seq<char>, mv: MeterView)
    requires
        finite_tables(s),
    ensures
        finite_tables(with_meter(s, owner, service_id, mv)),
        balances_total(with_meter(s, owner, service_id, mv)) == balances_total(s),
        locked_total(with_meter(s, owner, service_id, mv)) == locked_total(s) - meter_value(
            s,
            (owner, service_id),
        ).0 + mv.locked_deposit,
        spent_total(with_meter(s, owner, service_id, mv)) == spent_total(s) - meter_value(
            s,
            (owner, service_id),
        ).1 + mv.total_spent,
{
    let k = (owner, service_id);
    let m2 = s.meters.insert(k, mv);
    assert(m2.dom() =~= s.meters.dom().insert(k));
    lemma_sum_update(s.meters.dom(), locked_weight(s.meters), locked_weight(m2), k);
    lemma_sum_update(s.meters.dom(), spent_weight(s.meters), spent_weight(m2), k);
}

proof fn lemma_bump_nonce_value(s: StateView, a: Seq<char>)
    requires
        finite_tables(s),
    ensures
        finite_tables(bump_nonce(s, a)),
        balances_total(bump_nonce(s, a)) == balances_total(s),
        locked_total(bump_nonce(s, a)) == locked_total(s),
        spent_total(bump_nonce(s, a)) == spent_total(s),
{
    let acct = account_or_new(s, a);
    lemma_with_account_value(s, a, Account { balance: acct.balance, nonce: (acct.nonce + 1) as u64 });
}

proof fn lemma_debit_value(s: StateView, a: Seq<char>, amount: u64)
    requires
        finite_tables(s),
        account_or_new(s, a).balance >= amount,
    ensures
        finite_tables(debit(s, a, amount)),
        balances_total(debit(s, a, amount)) == balances_total(s) - amount,
        locked_total(debit(s, a, amount)) == locked_total(s),
        spent_total(debit(s, a, amount)) == spent_total(s),
{
    let acct = account_or_new(s, a);
    lemma_with_account_value(s, a, Account { balance: (acct.balance - amount) as u64, nonce: acct.nonce });
}

proof fn lemma_credit_value(s: StateView, a: Seq<char>, amount: u64)
    requires
        finite_tables(s),
        account_or_new(s, a).balance + amount <= u64::MAX,
    ensures
        finite_tables(credit(s, a, amount)),
        balances_total(credit(s, a, amount)) == balances_total(s) + amount,
        locked_total(credit(s, a, amount)) == locked_total(s),
        spent_total(credit(s, a, amount)) == spent_total(s),
{
    let acct = account_or_new(s, a);
    lemma_with_account_value(s, a, Account { balance: sat_add(acct.balance, amount), nonce: acct.nonce });
}

/// No closed meter still holds a deposit.
pub open spec fn inactive_meters_lock_nothing(s: StateView) -> bool {
    forall|k: (Seq<char>, Seq<char>)|
        #[trigger] s.meters.contains_key(k) && !s.meters[k].active ==> s.meters[k].locked_deposit == 0
}

/// The accepted transaction `t` pushes no balance and no meter's spend past `u64::MAX`
/// (where the arithmetic would saturate).
pub open spec fn value_fits(
    s: StateView,
    t: SignedTxView,
    ctx: ValidationContext,
    minters: Option<Set<Seq<char>>>,
) -> bool {
    match t.kind {
        TransactionView::Mint { to, amount } => account_or_new(s, to).balance + amount <= u64::MAX,
        TransactionView::Consume { owner, service_id, .. } => s.meters[(owner, service_id)].total_spent
            + validation_result(s, t, ctx, minters)->Ok_0->0 <= u64::MAX,
        TransactionView::CloseMeter { owner, service_id } => account_or_new(s, owner).balance
            + s.meters[(owner, service_id)].locked_deposit <= u64::MAX,
        _ => true,
    }
}

/// Conservation of value: an accepted OpenMeter, Consume or CloseMeter moves value between
/// balances, locked deposits and recorded spend without creating or losing any (OpenMeter and
/// CloseMeter keep balances plus deposits unchanged), and a Mint adds exactly its amount;
/// where no closed meter holds a deposit and nothing saturates.
#[verifier::rlimit(50)]
#[verifier::spinoff_prover]
pub proof fn law_metering_conserves_value(
    s: StateView,
    t: SignedTxView,
    ctx: ValidationContext,
    minters: Option<Set<Seq<char>>>,
)
    requires
        finite_tables(s),
        inactive_meters_lock_nothing(s),
        apply_safe(s, t, ctx),
        apply_result(s, t, ctx, minters) is Ok,
        value_fits(s, t, ctx, minters),
    ensures
        ({
            let ns = apply_result(s, t, ctx, minters)->Ok_0;
            match t.kind {
                TransactionView::Mint { amount, .. } => accounted_value(ns) == accounted_value(s) + amount,
                TransactionView::OpenMeter { .. } => {
                    &&& accounted_value(ns) == accounted_value(s)
                    &&& balances_total(ns) + locked_total(ns) == balances_total(s) + locked_total(s)
                },
                TransactionView::Consume { .. } => accounted_value(ns) == accounted_value(s),
                TransactionView::CloseMeter { .. } => {
                    &&& accounted_value(ns) == accounted_value(s)
                    &&& balances_total(ns) + locked_total(ns) == balances_total(s) + locked_total(s)
                },
                _ => true,
            }
        }),
{
    match t.kind {
        TransactionView::Mint { to, amount } => {
            lemma_credit_value(s, to, amount);
        },
        TransactionView::OpenMeter { owner, service_id, deposit } => {
            let k = (owner, service_id);
            let m = if s.meters.contains_key(k) {
                MeterView { active: true, locked_deposit: deposit, ..s.meters[k] }
            } else {
                crate::state::meter::new_meter_view(owner, service_id, deposit)
            };
            assert(s.meters.contains_key(k) ==> !s.meters[k].active);
            lemma_with_meter_value(s, owner, service_id, m);
            let s1 = with_meter(s, owner, service_id, m);
            assert(account_or_new(s1, owner).balance >= deposit);
            lemma_debit_value(s1, owner, deposit);
            lemma_bump_nonce_value(debit(s1, owner, deposit), t.signer);
        },
        TransactionView::Consume { owner, service_id, units, .. } => {
            let k = (owner, service_id);
            let cost = validation_result(s, t, ctx, minters)->Ok_0->0;
            let m = s.meters[k];
            let m2 = MeterView { total_units: sat_add(m.total_units, units), total_spent: sat_add(m.total_spent, cost), ..m };
            assert(s.meters.contains_key(k));
            lemma_with_meter_value(s, owner, service_id, m2);
            let s1 = with_meter(s, owner, service_id, m2);
            assert(account_or_new(s1, owner).balance >= cost);
            lemma_debit_value(s1, owner, cost);
            let na = match t.nonce_account {
                Some(a) => a,
                None => t.signer,
            };
            lemma_bump_nonce_value(debit(s1, owner, cost), na);
        },
        TransactionView::CloseMeter { owner, service_id } => {
            let k = (owner, service_id);
            let m = s.meters[k];
            let m2 = MeterView { active: false, locked_deposit: 0, ..m };
            lemma_with_meter_value(s, owner, service_id, m2);
            let s1 = with_meter(s, owner, service_id, m2);
            lemma_credit_value(s1, owner, m.locked_deposit);
            lemma_bump_nonce_value(credit(s1, owner, m.locked_deposit), t.signer);
        },
        _ => {},
    }
}

/// Closed meters stay empty: after an accepted transaction, as before it, no closed meter
/// holds a deposit. (The genesis state has no meter.)
#[verifier::rlimit(50)]
#[verifier::spinoff_prover]
pub proof fn law_closed_meters_stay_empty(
    s: StateView,
    t: SignedTxView,
    ctx: ValidationContext,
    minters: Option<Set<Seq<char>>>,
)
    requires
        inactive_meters_lock_nothing(s),
        apply_result(s, t, ctx, minters) is Ok,
    ensures
        inactive_meters_lock_nothing(apply_result(s, t, ctx, minters)->Ok_0),
{
    let ns = apply_result(s, t, ctx, minters)->Ok_0;
    match t.kind {
        TransactionView::OpenMeter { .. } => {},
        TransactionView::Consume { .. } => {},
        TransactionView::CloseMeter { .. } => {},
        _ => {
            assert(ns.meters == s.meters);
        },
    }
}

/// Usage only grows: after an accepted transaction every meter is still there, with no
/// fewer units and no less spend recorded.
#[verifier::rlimit(50)]
#[verifier::spinoff_prover]
pub proof fn law_meter_totals_never_decrease(
    s: StateView,
    t: SignedTxView,
    ctx: ValidationContext,
    minters: Option<Set<Seq<char>>>,
    k: (Seq<char>, Seq<char>),
)
    requires
        s.meters.contains_key(k),
        apply_result(s, t, ctx, minters) is Ok,
    ensures
        ({
            let ns = apply_result(s, t, ctx, minters)->Ok_0;
            &&& ns.meters.contains_key(k)
            &&& ns.meters[k].total_units >= s.meters[k].total_units
            &&& ns.meters[k].total_spent >= s.meters[k].total_spent
        }),
{
    let ns = apply_result(s, t, ctx, minters)->Ok_0;
    match t.kind {
        TransactionView::OpenMeter { .. } => {},
        TransactionView::Consume { .. } => {},
        TransactionView::CloseMeter { .. } => {},
        _ => {
            assert(ns.meters == s.meters);
        },
    }
}

/// One active meter per owner and service: opening a meter that is already active is
/// rejected.
pub proof fn law_second_active_open_rejected(
    s: StateView,
    t: SignedTxView,
    ctx: ValidationContext,
    minters: Option<Set<Seq<char>>>,
)
    requires
        t.kind matches TransactionView::OpenMeter { owner, service_id, .. } && s.meters.contains_key(
            (owner, service_id),
        ) && s.meters[(owner, service_id)].active,
    ensures
        apply_result(s, t, ctx, minters) == Err::<StateView, ErrorKind>(ErrorKind::InvalidTransaction),
{
}

} // verus!

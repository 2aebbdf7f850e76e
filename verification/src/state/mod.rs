//! Core domain state: accounts, meters, settlements, claims, disputes and policies.
pub mod account;
pub mod apply;
pub mod hook;
pub mod laws;
pub mod lifecycle;
pub mod meter;
pub mod policy;
pub mod query;
pub mod settlement;
pub mod value;

pub use account::Account;
pub use apply::{apply, StateMachine};
pub use hook::{ApplyHook, Hook, NoOpHook};
pub use meter::Meter;
pub use policy::{
    DisputePolicy, FeePolicy, PolicyConfig, PolicyScope, PolicyVersion, PolicyVersionId,
    PolicyVersionStatus, ReservePolicy,
};
pub use settlement::{
    Claim, ClaimId, ClaimStatus, Dispute, DisputeId, DisputeStatus, ResolutionAudit, Settlement,
    SettlementId, SettlementStatus,
};

use crate::evidence::{
    EvidenceBundle, EvidenceBundleView, CURRENT_EVIDENCE_SCHEMA_VERSION, REPLAY_PROTOCOL_VERSION,
};
use crate::state::meter::MeterView;
use crate::state::policy::{scope_chain_of, scope_key_of, PolicyVersionView, policy_key_of};
use crate::state::settlement::{
    ClaimView, DisputeView, ResolutionAuditView, SettlementView, settlement_key_of,
};
use crate::state::account::sat_add;
use crate::nameset::NameSet;
use crate::table::{pairs_insert, Duplicate, Table, TableKey};
use crate::text::{colon, owned};
use vstd::prelude::*;

verus! {

/// Meter key: `(owner, service_id)`.
#[derive(Debug, Clone, PartialEq, Eq)]
pub struct MeterKey {
    pub owner: String,
    pub service_id: String,
}

impl View for MeterKey {
    type V = (Seq<char>, Seq<char>);

    open spec fn view(&self) -> (Seq<char>, Seq<char>) {
        (self.owner@, self.service_id@)
    }
}

impl TableKey for MeterKey {
    fn same_key(&self, other: &Self) -> (b: bool) {
        self.owner == other.owner && self.service_id == other.service_id
    }

    fn duplicate_key(&self) -> (r: Self) {
        MeterKey { owner: self.owner.clone(), service_id: self.service_id.clone() }
    }
}

impl MeterKey {
    pub fn new(owner: String, service_id: String) -> (k: MeterKey)
        ensures
            k@ == (owner@, service_id@),
    {
        MeterKey { owner, service_id }
    }
}

/// Cumulative consumption charged to one delegation capability.
#[derive(Debug, Clone, PartialEq, Eq)]
pub struct CapabilityConsumption {
    pub consumed_units: u64,
    pub consumed_cost: u64,
}

impl View for CapabilityConsumption {
    type V = CapabilityConsumption;

    open spec fn view(&self) -> CapabilityConsumption {
        *self
    }
}

impl Duplicate for CapabilityConsumption {
    fn duplicate(&self) -> (r: Self) {
        CapabilityConsumption { consumed_units: self.consumed_units, consumed_cost: self.consumed_cost }
    }
}

/// Core domain state. It is rebuilt by replaying the transaction log from genesis;
/// every transition is deterministic.
#[derive(Debug, PartialEq, Eq)]
pub struct State {
    /// Accounts by address.
    pub accounts: Table<String, Account>,
    /// Meters by `(owner, service_id)`.
    pub meters: Table<MeterKey, Meter>,
    /// Units and cost consumed per capability id, for caveat limits.
    pub capability_consumption: Table<String, CapabilityConsumption>,
    /// Revoked capability ids.
    pub revoked_capability_ids: NameSet,
    /// Settlements by `<owner>:<service_id>:<window_id>`.
    pub settlements: Table<String, Settlement>,
    /// Claims by `<operator>:<settlement_key>`.
    pub claims: Table<String, Claim>,
    /// Disputes by settlement key.
    pub disputes: Table<String, Dispute>,
    /// Policy versions by `<scope_key>:<version>`.
    pub policy_versions: Table<String, PolicyVersion>,
}

/// Abstract state. Policy versions keep their iteration order, which decides ties in resolution.
pub struct StateView {
    pub accounts: Map<Seq<char>, Account>,
    pub meters: Map<(Seq<char>, Seq<char>), MeterView>,
    pub capability_consumption: Map<Seq<char>, CapabilityConsumption>,
    pub revoked_capability_ids: Set<Seq<char>>,
    pub settlements: Map<Seq<char>, SettlementView>,
    pub claims: Map<Seq<char>, ClaimView>,
    pub disputes: Map<Seq<char>, DisputeView>,
    pub policy_versions: Seq<(Seq<char>, PolicyVersionView)>,
}

impl View for State {
    type V = StateView;

    open spec fn view(&self) -> StateView {
        StateView {
            accounts: self.accounts@,
            meters: self.meters@,
            capability_consumption: self.capability_consumption@,
            revoked_capability_ids: self.revoked_capability_ids@,
            settlements: self.settlements@,
            claims: self.claims@,
            disputes: self.disputes@,
            policy_versions: self.policy_versions.pairs(),
        }
    }
}

/// The genesis state.
pub open spec fn empty_state() -> StateView {
    StateView {
        accounts: Map::empty(),
        meters: Map::empty(),
        capability_consumption: Map::empty(),
        revoked_capability_ids: Set::empty(),
        settlements: Map::empty(),
        claims: Map::empty(),
        disputes: Map::empty(),
        policy_versions: Seq::empty(),
    }
}

/// The account at `a`, or a fresh one when absent.
pub open spec fn account_or_new(s: StateView, a: Seq<char>) -> Account {
    if s.accounts.contains_key(a) {
        s.accounts[a]
    } else {
        Account { balance: 0, nonce: 0 }
    }
}

/// Consumption recorded for capability `c`, `(0, 0)` when none.
pub open spec fn consumption_of(s: StateView, c: Seq<char>) -> (u64, u64) {
    if s.capability_consumption.contains_key(c) {
        (s.capability_consumption[c].consumed_units, s.capability_consumption[c].consumed_cost)
    } else {
        (0, 0)
    }
}

/// A meter exists for `(owner, service_id)` and is active.
pub open spec fn has_active_meter_view(s: StateView, owner: Seq<char>, service_id: Seq<char>) -> bool {
    s.meters.contains_key((owner, service_id)) && s.meters[(owner, service_id)].active
}

/// `p` is a published version of scope `scope_key` effective at `tx`.
pub open spec fn policy_candidate(p: PolicyVersionView, scope_key: Seq<char>, tx: u64) -> bool {
    scope_key_of(p.scope) == scope_key && p.status == PolicyVersionStatus::Published
        && p.effective_from_tx_id <= tx
}

/// The candidate with the highest version; among equal versions the last in iteration order.
pub open spec fn best_policy(
    s: Seq<(Seq<char>, PolicyVersionView)>,
    scope_key: Seq<char>,
    tx: u64,
) -> Option<PolicyVersionView>
    decreases s.len(),
{
    if s.len() == 0 {
        None
    } else {
        let rest = best_policy(s.drop_last(), scope_key, tx);
        let x = s.last().1;
        if policy_candidate(x, scope_key, tx) {
            match rest {
                None => Some(x),
                Some(y) => if x.version >= y.version {
                    Some(x)
                } else {
                    Some(y)
                },
            }
        } else {
            rest
        }
    }
}

/// The policy in force for `(owner, service_id)` at `tx`: the best candidate of the most
/// specific scope that has one (OwnerService, then Owner, then Global).
pub open spec fn resolve_policy_view(
    s: Seq<(Seq<char>, PolicyVersionView)>,
    owner: Seq<char>,
    service_id: Seq<char>,
    tx: u64,
) -> Option<PolicyVersionView> {
    let chain = scope_chain_of(owner, service_id);
    match best_policy(s, scope_key_of(chain[0]), tx) {
        Some(p) => Some(p),
        None => match best_policy(s, scope_key_of(chain[1]), tx) {
            Some(p) => Some(p),
            None => best_policy(s, scope_key_of(chain[2]), tx),
        },
    }
}

/// Highest version recorded under `scope_key` (by the id's scope key), if any.
pub open spec fn latest_version(s: Seq<(Seq<char>, PolicyVersionView)>, scope_key: Seq<char>) -> Option<u64>
    decreases s.len(),
{
    if s.len() == 0 {
        None
    } else {
        let rest = latest_version(s.drop_last(), scope_key);
        let x = s.last().1;
        if x.scope_key == scope_key {
            match rest {
                None => Some(x.version),
                Some(v) => if x.version >= v {
                    Some(x.version)
                } else {
                    Some(v)
                },
            }
        } else {
            rest
        }
    }
}

/// Meters owned by `owner` (and active, when `active_only`).
pub open spec fn owned_by(owner: Seq<char>, active_only: bool) -> spec_fn(MeterView) -> bool {
    |m: MeterView| m.owner == owner && (!active_only || m.active)
}

/// The meters of `s` in iteration order.
pub open spec fn meter_values(s: Seq<((Seq<char>, Seq<char>), MeterView)>) -> Seq<MeterView> {
    s.map_values(|p: ((Seq<char>, Seq<char>), MeterView)| p.1)
}

impl Default for State {
    fn default() -> (s: State)
        ensures
            s.wf(),
            s@ == empty_state(),
    {
        State::new()
    }
}

impl State {
    /// Every table is well formed.
    pub open spec fn wf(&self) -> bool {
        &&& self.accounts.wf()
        &&& self.meters.wf()
        &&& self.capability_consumption.wf()
        &&& self.revoked_capability_ids.wf()
        &&& self.settlements.wf()
        &&& self.claims.wf()
        &&& self.disputes.wf()
        &&& self.policy_versions.wf()
    }

    /// Whether every table holds each key once: the invariant, checked on a state that
    /// came from outside (a snapshot).
    pub fn check_wf(&self) -> (b: bool)
        ensures
            b == self.wf(),
    {
        self.accounts.check_wf() && self.meters.check_wf() && self.capability_consumption.check_wf()
            && self.revoked_capability_ids.check_wf() && self.settlements.check_wf()
            && self.claims.check_wf() && self.disputes.check_wf() && self.policy_versions.check_wf()
    }

    /// Empty genesis state.
    pub fn new() -> (s: State)
        ensures
            s.wf(),
            s@ == empty_state(),
    {
        let s = State {
            accounts: Table::new(),
            meters: Table::new(),
            capability_consumption: Table::new(),
            revoked_capability_ids: NameSet::new(),
            settlements: Table::new(),
            claims: Table::new(),
            disputes: Table::new(),
            policy_versions: Table::new(),
        };
        s
    }

    /// A copy with the same content and the same iteration orders.
    pub fn duplicate(&self) -> (r: State)
        requires
            self.wf(),
        ensures
            r.wf(),
            r@ == self@,
            r.meters.pairs() == self.meters.pairs(),
    {
        State {
            accounts: self.accounts.duplicate(),
            meters: self.meters.duplicate(),
            capability_consumption: self.capability_consumption.duplicate(),
            revoked_capability_ids: self.revoked_capability_ids.duplicate(),
            settlements: self.settlements.duplicate(),
            claims: self.claims.duplicate(),
            disputes: self.disputes.duplicate(),
            policy_versions: self.policy_versions.duplicate(),
        }
    }

    /// True when the capability has been revoked.
    pub fn is_capability_revoked(&self, capability_id: &str) -> (b: bool)
        requires
            self.wf(),
        ensures
            b == self@.revoked_capability_ids.contains(capability_id@),
    {
        self.revoked_capability_ids.contains(capability_id)
    }

    /// Mark a capability as revoked.
    pub fn revoke_capability(&mut self, capability_id: String)
        requires
            old(self).wf(),
        ensures
            final(self).wf(),
            final(self)@ == (StateView {
                revoked_capability_ids: old(self)@.revoked_capability_ids.insert(capability_id@),
                ..old(self)@
            }),
            final(self).meters.pairs() == old(self).meters.pairs(),
    {
        self.revoked_capability_ids.insert(capability_id);
    }

    /// Cumulative `(units, cost)` of a capability, `(0, 0)` if unknown.
    pub fn get_capability_consumption(&self, capability_id: &str) -> (r: (u64, u64))
        requires
            self.wf(),
        ensures
            r == consumption_of(self@, capability_id@),
    {
        match self.capability_consumption.get(&owned(capability_id)) {
            Some(c) => (c.consumed_units, c.consumed_cost),
            None => (0, 0),
        }
    }

    /// Add `units` and `cost` (saturating) to the capability's cumulative consumption.
    pub fn record_capability_consumption(&mut self, capability_id: String, units: u64, cost: u64)
        requires
            old(self).wf(),
        ensures
            final(self).wf(),
            final(self)@ == (StateView {
                capability_consumption: old(self)@.capability_consumption.insert(
                    capability_id@,
                    CapabilityConsumption {
                        consumed_units: sat_add(consumption_of(old(self)@, capability_id@).0, units),
                        consumed_cost: sat_add(consumption_of(old(self)@, capability_id@).1, cost),
                    },
                ),
                ..old(self)@
            }),
            final(self).meters.pairs() == old(self).meters.pairs(),
    {
        let (u, c) = match self.capability_consumption.get(&capability_id) {
            Some(e) => (e.consumed_units, e.consumed_cost),
            None => (0, 0),
        };
        self.capability_consumption.insert(
            capability_id,
            CapabilityConsumption { consumed_units: u.saturating_add(units), consumed_cost: c.saturating_add(cost) },
        );
    }

    /// The account at `address`, created empty when absent.
    pub fn get_or_create_account(&mut self, address: &str) -> (r: &mut Account)
        requires
            old(self).wf(),
        ensures
            *r == account_or_new(old(self)@, address@),
            final(self).wf(),
            final(self)@ == (StateView { accounts: old(self)@.accounts.insert(address@, *final(r)), ..old(self)@ }),
            final(self).meters.pairs() == old(self).meters.pairs(),
    {
        let key = owned(address);
        if !self.accounts.contains_key(&key) {
            self.accounts.insert(owned(address), Account::new());
        }
        let ghost mid = self.accounts@;
        proof {
            assert(mid.insert(address@, account_or_new(old(self)@, address@)) =~= mid);
            assert forall|v: Account| #[trigger] mid.insert(address@, v) == old(self)@.accounts.insert(
                address@,
                v,
            ) by {
                assert(mid.insert(address@, v) =~= old(self)@.accounts.insert(address@, v));
            }
        }
        self.accounts.get_mut(&key).unwrap()
    }

    /// The account at `address`, if any.
    pub fn get_account(&self, address: &str) -> (r: Option<&Account>)
        requires
            self.wf(),
        ensures
            match r {
                Some(a) => self@.accounts.contains_key(address@) && *a == self@.accounts[address@],
                None => !self@.accounts.contains_key(address@),
            },
    {
        self.accounts.get(&owned(address))
    }

    /// Mutable access to the account at `address`, if any.
    pub fn get_account_mut(&mut self, address: &str) -> (r: Option<&mut Account>)
        requires
            old(self).wf(),
        ensures
            final(self).wf(),
            final(self).meters.pairs() == old(self).meters.pairs(),
            match r {
                Some(a) => {
                    &&& old(self)@.accounts.contains_key(address@)
                    &&& *a == old(self)@.accounts[address@]
                    &&& final(self)@ == (StateView {
                        accounts: old(self)@.accounts.insert(address@, *final(a)),
                        ..old(self)@
                    })
                },
                None => !old(self)@.accounts.contains_key(address@) && final(self)@ == old(self)@,
            },
    {
        self.accounts.get_mut(&owned(address))
    }

    /// The meter of `(owner, service_id)`, if any.
    pub fn get_meter(&self, owner: &str, service_id: &str) -> (r: Option<&Meter>)
        requires
            self.wf(),
        ensures
            match r {
                Some(m) => self@.meters.contains_key((owner@, service_id@)) && m@ == self@.meters[(
                    owner@,
                    service_id@,
                )],
                None => !self@.meters.contains_key((owner@, service_id@)),
            },
    {
        let key = MeterKey::new(owned(owner), owned(service_id));
        self.meters.get(&key)
    }

    /// Mutable access to the meter of `(owner, service_id)`, if any.
    pub fn get_meter_mut(&mut self, owner: &str, service_id: &str) -> (r: Option<&mut Meter>)
        requires
            old(self).wf(),
        ensures
            final(self).wf(),
            match r {
                Some(m) => {
                    &&& old(self)@.meters.contains_key((owner@, service_id@))
                    &&& m@ == old(self)@.meters[(owner@, service_id@)]
                    &&& final(self)@ == (StateView {
                        meters: old(self)@.meters.insert((owner@, service_id@), final(m)@),
                        ..old(self)@
                    })
                    &&& final(self).meters.pairs() == pairs_insert(
                        old(self).meters.pairs(),
                        (owner@, service_id@),
                        final(m)@,
                    )
                },
                None => !old(self)@.meters.contains_key((owner@, service_id@)) && final(self)@
                    == old(self)@ && final(self).meters.pairs() == old(self).meters.pairs(),
            },
    {
        let key = MeterKey::new(owned(owner), owned(service_id));
        self.meters.get_mut(&key)
    }

    /// Insert or replace a meter under its own `(owner, service_id)`.
    pub fn insert_meter(&mut self, meter: Meter)
        requires
            old(self).wf(),
        ensures
            final(self).wf(),
            final(self)@ == (StateView {
                meters: old(self)@.meters.insert((meter.owner@, meter.service_id@), meter@),
                ..old(self)@
            }),
            final(self).meters.pairs() == pairs_insert(
                old(self).meters.pairs(),
                (meter.owner@, meter.service_id@),
                meter@,
            ),
    {
        let key = MeterKey::new(meter.owner.clone(), meter.service_id.clone());
        self.meters.insert(key, meter);
    }

    /// True when an active meter exists for `(owner, service_id)` (at most one may exist).
    pub fn has_active_meter(&self, owner: &str, service_id: &str) -> (b: bool)
        requires
            self.wf(),
        ensures
            b == has_active_meter_view(self@, owner@, service_id@),
    {
        match self.get_meter(owner, service_id) {
            Some(m) => m.is_active(),
            None => false,
        }
    }

    /// Meters whose owner is `owner` (active only when `active_only`), in iteration order.
    fn owner_meters(&self, owner: &str, active_only: bool) -> (r: Vec<&Meter>)
        requires
            self.wf(),
        ensures
            r@.map_values(|m: &Meter| m@) == meter_values(self.meters.pairs()).filter(
                owned_by(owner@, active_only),
            ),
    {
        let ghost pred = owned_by(owner@, active_only);
        let ghost all = meter_values(self.meters.pairs());
        let owner_s = owned(owner);
        let mut r: Vec<&Meter> = Vec::new();
        let n = self.meters.len();
        let mut i: usize = 0;
        while i < n
            invariant
                self.wf(),
                n == self.meters.pairs().len(),
                i <= n,
                all == meter_values(self.meters.pairs()),
                pred == owned_by(owner@, active_only),
                owner_s@ == owner@,
                r@.map_values(|m: &Meter| m@) == all.take(i as int).filter(pred),
            decreases n - i,
        {
            let m = self.meters.value_at(i);
            proof {
                reveal_with_fuel(Seq::<_>::filter, 1);
                assert(all.take(i + 1).drop_last() =~= all.take(i as int));
                assert(all.take(i + 1).last() == m@);
            }
            let keep = m.owner == owner_s && (!active_only || m.active);
            proof {
                assert(keep == pred(m@));
                if !keep {
                    assert(all.take(i + 1).filter(pred) =~= all.take(i as int).filter(pred));
                } else {
                    assert(all.take(i + 1).filter(pred) =~= all.take(i as int).filter(pred).push(m@));
                }
            }
            if keep {
                r.push(m);
                proof {
                    assert(r@.map_values(|m: &Meter| m@) =~= all.take(i as int).filter(pred).push(m@));
                }
            }
            i = i + 1;
        }
        proof {
            assert(all.take(n as int) =~= all);
        }
        r
    }

    /// All meters of `owner`, in iteration order.
    pub fn get_owner_meters(&self, owner: &str) -> (r: Vec<&Meter>)
        requires
            self.wf(),
        ensures
            r@.map_values(|m: &Meter| m@) == meter_values(self.meters.pairs()).filter(
                owned_by(owner@, false),
            ),
    {
        self.owner_meters(owner, false)
    }

    /// Active meters of `owner`, in iteration order.
    pub fn get_owner_active_meters(&self, owner: &str) -> (r: Vec<&Meter>)
        requires
            self.wf(),
        ensures
            r@.map_values(|m: &Meter| m@) == meter_values(self.meters.pairs()).filter(
                owned_by(owner@, true),
            ),
    {
        self.owner_meters(owner, true)
    }
}

/// The bundle of evidence for a settlement whose dispute was resolved with replay evidence.
pub open spec fn evidence_bundle_view(s: StateView, owner: Seq<char>, service_id: Seq<char>, window_id: Seq<char>) -> Option<EvidenceBundleView> {
    let k = settlement_key_of(owner, service_id, window_id);
    if s.settlements.contains_key(k) && s.disputes.contains_key(k) && s.disputes[k].resolution_audit is Some {
        let st = s.settlements[k];
        let a = s.disputes[k].resolution_audit.unwrap();
        Some(EvidenceBundleView {
            schema_version: CURRENT_EVIDENCE_SCHEMA_VERSION,
            replay_protocol_version: REPLAY_PROTOCOL_VERSION,
            settlement_key: k,
            from_tx_id: st.from_tx_id,
            to_tx_id: st.to_tx_id,
            evidence_hash: st.evidence_hash,
            replay_hash: a.replay_hash,
            replay_summary: a.replay_summary,
        })
    } else {
        None
    }
}

impl State {
    /// The settlement with identity `id`, if any.
    pub fn get_settlement(&self, id: &SettlementId) -> (r: Option<&Settlement>)
        requires
            self.wf(),
        ensures
            match r {
                Some(s) => self@.settlements.contains_key(id.key_view()) && s@ == self@.settlements[id.key_view()],
                None => !self@.settlements.contains_key(id.key_view()),
            },
    {
        self.settlements.get(&id.key())
    }

    /// Mutable access to the settlement with identity `id`, if any.
    pub fn get_settlement_mut(&mut self, id: &SettlementId) -> (r: Option<&mut Settlement>)
        requires
            old(self).wf(),
        ensures
            final(self).wf(),
            final(self).meters.pairs() == old(self).meters.pairs(),
            match r {
                Some(s) => {
                    &&& old(self)@.settlements.contains_key(id.key_view())
                    &&& s@ == old(self)@.settlements[id.key_view()]
                    &&& final(self)@ == (StateView {
                        settlements: old(self)@.settlements.insert(id.key_view(), final(s)@),
                        ..old(self)@
                    })
                },
                None => !old(self)@.settlements.contains_key(id.key_view()) && final(self)@ == old(self)@,
            },
    {
        self.settlements.get_mut(&id.key())
    }

    /// Insert or replace a settlement under its own key.
    pub fn insert_settlement(&mut self, s: Settlement)
        requires
            old(self).wf(),
        ensures
            final(self).wf(),
            final(self)@ == (StateView {
                settlements: old(self)@.settlements.insert(s.id.key_view(), s@),
                ..old(self)@
            }),
            final(self).meters.pairs() == old(self).meters.pairs(),
    {
        let key = s.id.key();
        self.settlements.insert(key, s);
    }

    /// The claim with identity `id`, if any.
    pub fn get_claim(&self, id: &ClaimId) -> (r: Option<&Claim>)
        requires
            self.wf(),
        ensures
            match r {
                Some(c) => self@.claims.contains_key(id.operator@ + colon() + id.settlement_key@)
                    && c@ == self@.claims[id.operator@ + colon() + id.settlement_key@],
                None => !self@.claims.contains_key(id.operator@ + colon() + id.settlement_key@),
            },
    {
        self.claims.get(&id.key())
    }

    /// Mutable access to the claim with identity `id`, if any.
    pub fn get_claim_mut(&mut self, id: &ClaimId) -> (r: Option<&mut Claim>)
        requires
            old(self).wf(),
        ensures
            final(self).wf(),
            final(self).meters.pairs() == old(self).meters.pairs(),
            match r {
                Some(c) => {
                    &&& old(self)@.claims.contains_key(id.operator@ + colon() + id.settlement_key@)
                    &&& c@ == old(self)@.claims[id.operator@ + colon() + id.settlement_key@]
                    &&& final(self)@ == (StateView {
                        claims: old(self)@.claims.insert(id.operator@ + colon() + id.settlement_key@, final(c)@),
                        ..old(self)@
                    })
                },
                None => !old(self)@.claims.contains_key(id.operator@ + colon() + id.settlement_key@)
                    && final(self)@ == old(self)@,
            },
    {
        self.claims.get_mut(&id.key())
    }

    /// Insert or replace a claim under its own key.
    pub fn insert_claim(&mut self, c: Claim)
        requires
            old(self).wf(),
        ensures
            final(self).wf(),
            final(self)@ == (StateView {
                claims: old(self)@.claims.insert(c.id.operator@ + colon() + c.id.settlement_key@, c@),
                ..old(self)@
            }),
            final(self).meters.pairs() == old(self).meters.pairs(),
    {
        let key = c.id.key();
        self.claims.insert(key, c);
    }

    /// The dispute with identity `id`, if any.
    pub fn get_dispute(&self, id: &DisputeId) -> (r: Option<&Dispute>)
        requires
            self.wf(),
        ensures
            match r {
                Some(d) => self@.disputes.contains_key(id.settlement_key@) && d@ == self@.disputes[id.settlement_key@],
                None => !self@.disputes.contains_key(id.settlement_key@),
            },
    {
        self.disputes.get(&owned(id.key()))
    }

    /// Mutable access to the dispute with identity `id`, if any.
    pub fn get_dispute_mut(&mut self, id: &DisputeId) -> (r: Option<&mut Dispute>)
        requires
            old(self).wf(),
        ensures
            final(self).wf(),
            final(self).meters.pairs() == old(self).meters.pairs(),
            match r {
                Some(d) => {
                    &&& old(self)@.disputes.contains_key(id.settlement_key@)
                    &&& d@ == old(self)@.disputes[id.settlement_key@]
                    &&& final(self)@ == (StateView {
                        disputes: old(self)@.disputes.insert(id.settlement_key@, final(d)@),
                        ..old(self)@
                    })
                },
                None => !old(self)@.disputes.contains_key(id.settlement_key@) && final(self)@ == old(self)@,
            },
    {
        self.disputes.get_mut(&owned(id.key()))
    }

    /// Insert or replace a dispute under its own key.
    pub fn insert_dispute(&mut self, d: Dispute)
        requires
            old(self).wf(),
        ensures
            final(self).wf(),
            final(self)@ == (StateView {
                disputes: old(self)@.disputes.insert(d.id.settlement_key@, d@),
                ..old(self)@
            }),
            final(self).meters.pairs() == old(self).meters.pairs(),
    {
        let key = owned(d.id.key());
        self.disputes.insert(key, d);
    }

    /// The policy version with identity `id`, if any.
    pub fn get_policy_version(&self, id: &PolicyVersionId) -> (r: Option<&PolicyVersion>)
        requires
            self.wf(),
        ensures
            match r {
                Some(p) => self.policy_versions@.contains_key(policy_key_of(id.scope_key@, id.version))
                    && p@ == self.policy_versions@[policy_key_of(id.scope_key@, id.version)],
                None => !self.policy_versions@.contains_key(policy_key_of(id.scope_key@, id.version)),
            },
    {
        self.policy_versions.get(&id.key())
    }

    /// Mutable access to the policy version with identity `id`, if any.
    pub fn get_policy_version_mut(&mut self, id: &PolicyVersionId) -> (r: Option<&mut PolicyVersion>)
        requires
            old(self).wf(),
        ensures
            final(self).wf(),
            final(self).meters.pairs() == old(self).meters.pairs(),
            match r {
                Some(p) => {
                    &&& old(self).policy_versions@.contains_key(policy_key_of(id.scope_key@, id.version))
                    &&& p@ == old(self).policy_versions@[policy_key_of(id.scope_key@, id.version)]
                    &&& final(self)@ == (StateView {
                        policy_versions: pairs_insert(
                            old(self)@.policy_versions,
                            policy_key_of(id.scope_key@, id.version),
                            final(p)@,
                        ),
                        ..old(self)@
                    })
                },
                None => !old(self).policy_versions@.contains_key(policy_key_of(id.scope_key@, id.version))
                    && final(self)@ == old(self)@,
            },
    {
        self.policy_versions.get_mut(&id.key())
    }

    /// Insert or replace a policy version under its own key.
    pub fn insert_policy_version(&mut self, p: PolicyVersion)
        requires
            old(self).wf(),
        ensures
            final(self).wf(),
            final(self)@ == (StateView {
                policy_versions: pairs_insert(old(self)@.policy_versions, policy_key_of(p.id.scope_key@, p.id.version), p@),
                ..old(self)@
            }),
            final(self).meters.pairs() == old(self).meters.pairs(),
    {
        let key = p.id.key();
        self.policy_versions.insert(key, p);
    }

    /// The best candidate of one scope.
    fn best_in_scope(&self, scope_key: &String, current_tx_id: u64) -> (r: Option<usize>)
        requires
            self.wf(),
        ensures
            match r {
                Some(i) => i < self.policy_versions.pairs().len() && best_policy(self@.policy_versions, scope_key@, current_tx_id)
                    == Some(self.policy_versions.pairs()[i as int].1),
                None => best_policy(self@.policy_versions, scope_key@, current_tx_id) is None,
            },
    {
        let ghost all = self@.policy_versions;
        let n = self.policy_versions.len();
        let mut best: Option<usize> = None;
        let mut i: usize = 0;
        while i < n
            invariant
                self.wf(),
                all == self@.policy_versions,
                n == all.len(),
                i <= n,
                match best {
                    Some(b) => b < i && best_policy(all.take(i as int), scope_key@, current_tx_id) == Some(all[b as int].1),
                    None => best_policy(all.take(i as int), scope_key@, current_tx_id) is None,
                },
            decreases n - i,
        {
            let pv = self.policy_versions.value_at(i);
            proof {
                assert(all.take(i + 1).drop_last() =~= all.take(i as int));
                assert(all.take(i + 1).last() == all[i as int]);
            }
            let candidate = pv.scope.scope_key() == *scope_key && pv.is_published()
                && pv.effective_from_tx_id <= current_tx_id;
            if candidate {
                match best {
                    None => {
                        best = Some(i);
                    },
                    Some(b) => {
                        if pv.id.version >= self.policy_versions.value_at(b).id.version {
                            best = Some(i);
                        }
                    },
                }
            }
            i = i + 1;
        }
        proof {
            assert(all.take(n as int) =~= all);
        }
        best
    }

    /// The policy in force for `(owner, service_id)` at `current_tx_id`.
    /// Precedence OwnerService > Owner > Global; within a scope, the highest published version
    /// whose `effective_from_tx_id <= current_tx_id`.
    pub fn resolve_policy(&self, owner: &str, service_id: &str, current_tx_id: u64) -> (r: Option<&PolicyVersion>)
        requires
            self.wf(),
        ensures
            match r {
                Some(p) => resolve_policy_view(self@.policy_versions, owner@, service_id@, current_tx_id) == Some(p@),
                None => resolve_policy_view(self@.policy_versions, owner@, service_id@, current_tx_id) is None,
            },
    {
        let chain = PolicyScope::scope_chain(owner, service_id);
        proof {
            assert(chain@[0]@ == scope_chain_of(owner@, service_id@)[0]);
            assert(chain@[1]@ == scope_chain_of(owner@, service_id@)[1]);
            assert(chain@[2]@ == scope_chain_of(owner@, service_id@)[2]);
        }
        let k0 = chain[0].scope_key();
        match self.best_in_scope(&k0, current_tx_id) {
            Some(i) => {
                return Some(self.policy_versions.value_at(i));
            },
            None => {},
        }
        let k1 = chain[1].scope_key();
        match self.best_in_scope(&k1, current_tx_id) {
            Some(i) => {
                return Some(self.policy_versions.value_at(i));
            },
            None => {},
        }
        let k2 = chain[2].scope_key();
        match self.best_in_scope(&k2, current_tx_id) {
            Some(i) => Some(self.policy_versions.value_at(i)),
            None => None,
        }
    }

    /// The scope chain for `(owner, service_id)`: OwnerService, Owner, Global.
    pub fn resolve_scope_chain(&self, owner: &str, service_id: &str) -> (r: Vec<PolicyScope>)
        ensures
            r@.map_values(|s: PolicyScope| s@) == scope_chain_of(owner@, service_id@),
    {
        PolicyScope::scope_chain(owner, service_id)
    }

    /// Highest version recorded under `scope_key`, if any.
    pub fn latest_policy_version_for_scope(&self, scope_key: &str) -> (r: Option<u64>)
        requires
            self.wf(),
        ensures
            r == latest_version(self@.policy_versions, scope_key@),
    {
        let ghost all = self@.policy_versions;
        let key = owned(scope_key);
        let n = self.policy_versions.len();
        let mut best: Option<u64> = None;
        let mut i: usize = 0;
        while i < n
            invariant
                self.wf(),
                all == self@.policy_versions,
                n == all.len(),
                i <= n,
                key@ == scope_key@,
                best == latest_version(all.take(i as int), scope_key@),
            decreases n - i,
        {
            let pv = self.policy_versions.value_at(i);
            proof {
                assert(all.take(i + 1).drop_last() =~= all.take(i as int));
                assert(all.take(i + 1).last() == all[i as int]);
            }
            if pv.id.scope_key == key {
                best = match best {
                    None => Some(pv.id.version),
                    Some(v) => if pv.id.version >= v {
                        Some(pv.id.version)
                    } else {
                        Some(v)
                    },
                };
            }
            i = i + 1;
        }
        proof {
            assert(all.take(n as int) =~= all);
        }
        best
    }

    /// The replay evidence recorded when the dispute on `settlement_id` was resolved.
    pub fn get_dispute_resolution_audit(&self, settlement_id: &SettlementId) -> (r: Option<&ResolutionAudit>)
        requires
            self.wf(),
        ensures
            match r {
                Some(a) => self@.disputes.contains_key(settlement_id.key_view())
                    && self@.disputes[settlement_id.key_view()].resolution_audit == Some(a@),
                None => !self@.disputes.contains_key(settlement_id.key_view())
                    || self@.disputes[settlement_id.key_view()].resolution_audit is None,
            },
    {
        let did = DisputeId::new(settlement_id);
        match self.get_dispute(&did) {
            Some(d) => match &d.resolution_audit {
                Some(a) => Some(a),
                None => None,
            },
            None => None,
        }
    }

    /// The evidence bundle of a settlement whose dispute was resolved with replay evidence.
    pub fn get_evidence_bundle(&self, settlement_id: &SettlementId) -> (r: Option<EvidenceBundle>)
        requires
            self.wf(),
        ensures
            match r {
                Some(b) => evidence_bundle_view(self@, settlement_id.owner@, settlement_id.service_id@, settlement_id.window_id@) == Some(b@),
                None => evidence_bundle_view(self@, settlement_id.owner@, settlement_id.service_id@, settlement_id.window_id@) is None,
            },
    {
        let s = match self.get_settlement(settlement_id) {
            Some(s) => s,
            None => return None,
        };
        let audit = match self.get_dispute_resolution_audit(settlement_id) {
            Some(a) => a,
            None => return None,
        };
        Some(EvidenceBundle {
            schema_version: CURRENT_EVIDENCE_SCHEMA_VERSION,
            replay_protocol_version: REPLAY_PROTOCOL_VERSION,
            settlement_key: settlement_id.key(),
            from_tx_id: s.from_tx_id,
            to_tx_id: s.to_tx_id,
            evidence_hash: s.evidence_hash.clone(),
            replay_hash: audit.replay_hash.clone(),
            replay_summary: audit.replay_summary.duplicate(),
        })
    }
}

} // verus!

//! Meter aggregate: the usage ledger of one service owned by one account.
use crate::state::account::sat_add;
use crate::table::Duplicate;
use vstd::prelude::*;

verus! {

/// Meter aggregate, identified by `(owner, service_id)`.
///
/// Only the owner operates it; `total_units` and `total_spent` never decrease;
/// `locked_deposit` holds funds committed while the meter is active.
#[derive(Debug, Clone, PartialEq, Eq)]
pub struct Meter {
    /// Account that owns this meter.
    pub owner: String,
    /// Service identifier (e.g. "storage").
    pub service_id: String,
    /// Cumulative usage units.
    pub total_units: u64,
    /// Cumulative cost paid.
    pub total_spent: u64,
    /// Whether the meter accepts consumption.
    pub active: bool,
    /// Committed funds, refunded on closure.
    pub locked_deposit: u64,
}

/// Abstract meter.
pub struct MeterView {
    pub owner: Seq<char>,
    pub service_id: Seq<char>,
    pub total_units: u64,
    pub total_spent: u64,
    pub active: bool,
    pub locked_deposit: u64,
}

impl View for Meter {
    type V = MeterView;

    open spec fn view(&self) -> MeterView {
        MeterView {
            owner: self.owner@,
            service_id: self.service_id@,
            total_units: self.total_units,
            total_spent: self.total_spent,
            active: self.active,
            locked_deposit: self.locked_deposit,
        }
    }
}

impl Duplicate for Meter {
    fn duplicate(&self) -> (r: Self) {
        Meter {
            owner: self.owner.clone(),
            service_id: self.service_id.clone(),
            total_units: self.total_units,
            total_spent: self.total_spent,
            active: self.active,
            locked_deposit: self.locked_deposit,
        }
    }
}

/// A fresh active meter with zero totals.
pub open spec fn new_meter_view(owner: Seq<char>, service_id: Seq<char>, deposit: u64) -> MeterView {
    MeterView { owner, service_id, total_units: 0, total_spent: 0, active: true, locked_deposit: deposit }
}

impl Meter {
    /// Create a new active meter with zero totals.
    pub fn new(owner: String, service_id: String, deposit: u64) -> (m: Meter)
        ensures
            m@ == new_meter_view(owner@, service_id@, deposit),
    {
        Meter { owner, service_id, total_units: 0, total_spent: 0, active: true, locked_deposit: deposit }
    }

    /// Create an inactive meter with the given historical totals and no deposit.
    pub fn inactive(owner: String, service_id: String, total_units: u64, total_spent: u64) -> (m: Meter)
        ensures
            m@ == (MeterView {
                owner: owner@,
                service_id: service_id@,
                total_units,
                total_spent,
                active: false,
                locked_deposit: 0,
            }),
    {
        Meter { owner, service_id, total_units, total_spent, active: false, locked_deposit: 0 }
    }

    /// Reactivate with a new deposit; historical totals are kept.
    pub fn reactivate(&mut self, deposit: u64)
        ensures
            final(self)@ == (MeterView { active: true, locked_deposit: deposit, ..old(self)@ }),
    {
        self.active = true;
        self.locked_deposit = deposit;
    }

    /// Close the meter (Active to Inactive) and hand back the locked deposit.
    pub fn close(&mut self) -> (deposit: u64)
        ensures
            deposit == old(self).locked_deposit,
            final(self)@ == (MeterView { active: false, locked_deposit: 0, ..old(self)@ }),
    {
        self.active = false;
        let deposit = self.locked_deposit;
        self.locked_deposit = 0;
        deposit
    }

    /// Add `units` and `cost` to the totals (each saturating), so both only grow.
    pub fn record_consumption(&mut self, units: u64, cost: u64)
        ensures
            final(self)@ == (MeterView {
                total_units: sat_add(old(self).total_units, units),
                total_spent: sat_add(old(self).total_spent, cost),
                ..old(self)@
            }),
    {
        self.total_units = self.total_units.saturating_add(units);
        self.total_spent = self.total_spent.saturating_add(cost);
    }

    /// Whether the meter accepts consumption.
    pub fn is_active(&self) -> (b: bool)
        ensures
            b == self.active,
    {
        self.active
    }

    /// The meter's identity `(owner, service_id)`.
    pub fn identity(&self) -> (r: (&str, &str))
        ensures
            r.0@ == self.owner@,
            r.1@ == self.service_id@,
    {
        (self.owner.as_str(), self.service_id.as_str())
    }

    /// Total units consumed.
    pub fn total_units(&self) -> (r: u64)
        ensures
            r == self.total_units,
    {
        self.total_units
    }

    /// Total amount spent.
    pub fn total_spent(&self) -> (r: u64)
        ensures
            r == self.total_spent,
    {
        self.total_spent
    }

    /// The locked deposit.
    pub fn locked_deposit(&self) -> (r: u64)
        ensures
            r == self.locked_deposit,
    {
        self.locked_deposit
    }
}

} // verus!

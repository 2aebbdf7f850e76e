//! Account aggregate: a payer with a balance and a sequence number.
use crate::table::Duplicate;
use crate::text::{decimal, text_num_text_num};
use vstd::prelude::*;

verus! {

/// Account aggregate: spendable funds and the per-account sequence number.
///
/// The balance never becomes negative (it is unsigned and only decreases after a check);
/// the nonce only increases.
#[derive(Debug, Clone, PartialEq, Eq)]
pub struct Account {
    /// Spendable funds held by the account.
    pub balance: u64,
    /// Per-account sequence number for ordering and replay protection.
    pub nonce: u64,
}

impl View for Account {
    type V = Account;

    open spec fn view(&self) -> Account {
        *self
    }
}

impl Duplicate for Account {
    fn duplicate(&self) -> (r: Self) {
        Account { balance: self.balance, nonce: self.nonce }
    }
}

/// The text reported when a balance does not cover an amount.
pub open spec fn insufficient_text(have: u64, need: u64) -> Seq<char> {
    "Insufficient balance: have "@ + decimal(have as nat) + ", need "@ + decimal(need as nat)
}

/// `a + b`, or `u64::MAX` when the sum does not fit.
pub open spec fn sat_add(a: u64, b: u64) -> u64 {
    if a + b > u64::MAX {
        u64::MAX
    } else {
        (a + b) as u64
    }
}

/// `a - b`, or 0 when `b > a`.
pub open spec fn sat_sub(a: u64, b: u64) -> u64 {
    if b > a {
        0
    } else {
        (a - b) as u64
    }
}

impl Account {
    /// An empty account.
    pub fn new() -> (a: Account)
        ensures
            a.balance == 0,
            a.nonce == 0,
    {
        Account { balance: 0, nonce: 0 }
    }

    /// An account holding `balance`, nonce 0.
    pub fn with_balance(balance: u64) -> (a: Account)
        ensures
            a.balance == balance,
            a.nonce == 0,
    {
        Account { balance, nonce: 0 }
    }

    /// Advance the sequence number by one.
    pub fn increment_nonce(&mut self)
        requires
            old(self).nonce < u64::MAX,
        ensures
            final(self).nonce == old(self).nonce + 1,
            final(self).balance == old(self).balance,
    {
        self.nonce = self.nonce + 1;
    }

    /// Credit `amount` (saturating at `u64::MAX`); returns the new balance.
    pub fn add_balance(&mut self, amount: u64) -> (r: u64)
        ensures
            final(self).balance == sat_add(old(self).balance, amount),
            final(self).nonce == old(self).nonce,
            r == final(self).balance,
    {
        self.balance = self.balance.saturating_add(amount);
        self.balance
    }

    /// Debit `amount` if the balance covers it; otherwise nothing changes.
    pub fn subtract_balance(&mut self, amount: u64) -> (r: core::result::Result<u64, String>)
        ensures
            old(self).balance >= amount ==> final(self).balance == old(self).balance - amount && r
                == Ok::<u64, String>(final(self).balance),
            old(self).balance < amount ==> *final(self) == *old(self) && (r matches Err(m) && m@
                == insufficient_text(old(self).balance, amount)),
            final(self).nonce == old(self).nonce,
    {
        if self.balance < amount {
            let m = text_num_text_num("Insufficient balance: have ", self.balance, ", need ", amount);
            return Err(m);
        }
        self.balance = self.balance - amount;
        Ok(self.balance)
    }

    /// True when the balance covers `amount`.
    pub fn has_sufficient_balance(&self, amount: u64) -> (b: bool)
        ensures
            b == (self.balance >= amount),
    {
        self.balance >= amount
    }

    /// The balance.
    pub fn balance(&self) -> (r: u64)
        ensures
            r == self.balance,
    {
        self.balance
    }

    /// The nonce.
    pub fn nonce(&self) -> (r: u64)
        ensures
            r == self.nonce,
    {
        self.nonce
    }
}

impl Default for Account {
    fn default() -> (a: Account)
        ensures
            a.balance == 0,
            a.nonce == 0,
    {
        Account::new()
    }
}

} // verus!

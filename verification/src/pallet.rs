//! The Ledger Operations: the two state transitions `mint_unsafe` and
//! `transfer`, each validated against policy before any write, each emitting
//! exactly one effect on success and exactly one policy error on rejection.

use vstd::prelude::*;

verus! {

use crate::AccountId;
use crate::Balance;
use crate::map_sum::lemma_entry_le_sum;
use crate::map_sum::lemma_sum_insert;
use crate::map_sum::lemma_sum_nonneg;
use crate::store::Store;
use crate::store::StoreView;
use crate::store::balance_or_zero;
use crate::store::consistent;
use crate::store::issuance_or_zero;

/// A policy error: a rejection caused by violating a business rule.  Every
/// rejected call returns exactly one of these and leaves the store unchanged.
#[derive(Clone, Copy, Debug, PartialEq, Eq, Structural)]
pub enum Error {
    /// A transfer's amount exceeds the source's current balance.
    InsufficientBalance,
    /// A transfer's source has no recorded balance.
    NonExistentAccount,
    /// A credit's amount is under the configured minimum.
    BelowMinAmount,
}

/// An effect: a structured record of what a successful operation changed,
/// handed to the host for observation and logging.
#[derive(Clone, Copy, Debug, PartialEq, Eq, Structural)]
pub enum Event {
    /// `amount` new units were credited to `to`.
    Mint { to: AccountId, amount: Balance },
    /// `amount` units moved from `from` to `to`.
    Transfer { from: AccountId, to: AccountId, amount: Balance },
}

/// What `mint_unsafe` returns: the credit effect when the amount reaches the
/// configured minimum, `BelowMinAmount` otherwise.
pub open spec fn mint_outcome(min: Balance, to: AccountId, amount: Balance) -> Result<
    Event,
    Error,
> {
    if amount < min {
        Err(Error::BelowMinAmount)
    } else {
        Ok(Event::Mint { to, amount })
    }
}

/// The store after a successful credit of `amount` to `dest`: `dest`'s
/// balance and the issuance both grow by exactly `amount`.
pub open spec fn mint_post(v: StoreView, dest: AccountId, amount: Balance) -> StoreView {
    StoreView {
        balances: v.balances.insert(dest, (balance_or_zero(v, dest) + amount) as Balance),
        issuance: Some((issuance_or_zero(v) + amount) as Balance),
    }
}

/// What `transfer` returns: `NonExistentAccount` when the source has never
/// held a balance, `InsufficientBalance` when the amount exceeds the source's
/// pre-call balance, and the transfer effect otherwise.
pub open spec fn transfer_outcome(
    v: StoreView,
    from: AccountId,
    to: AccountId,
    amount: Balance,
) -> Result<Event, Error> {
    if !v.balances.contains_key(from) {
        Err(Error::NonExistentAccount)
    } else if amount > v.balances[from] {
        Err(Error::InsufficientBalance)
    } else {
        Ok(Event::Transfer { from, to, amount })
    }
}

/// The store after a successful transfer: the source is first left with its
/// remainder, then the destination (read after that write, so a self-transfer
/// reads the remainder) grows by `amount`.  The issuance is untouched.
pub open spec fn transfer_post(
    v: StoreView,
    from: AccountId,
    to: AccountId,
    amount: Balance,
) -> StoreView {
    let debited = StoreView {
        balances: v.balances.insert(from, (v.balances[from] - amount) as Balance),
        issuance: v.issuance,
    };
    StoreView {
        balances: debited.balances.insert(
            to,
            (balance_or_zero(debited, to) + amount) as Balance,
        ),
        issuance: v.issuance,
    }
}

/// The Ledger Operations component, configured once with the host's minimum
/// credit amount.  It owns no state of its own: each operation is handed the
/// store it acts on.
pub struct Pallet {
    min_amount: Balance,
}

impl Pallet {
    /// The configured policy floor for credits.
    pub closed spec fn min(&self) -> Balance {
        self.min_amount
    }

    /// A ledger configured with the host's minimum credit amount.
    pub fn new(min_amount: Balance) -> (p: Pallet)
        ensures
            p.min() == min_amount,
    {
        Pallet { min_amount }
    }

    /// Credits `amount` fresh units to `dest`.  Deliberately callable for any
    /// destination by any resolved caller: the weak policy is the documented
    /// contract, not an omission.  Rejects amounts under the configured
    /// minimum before any write; on success `dest`'s balance and the total
    /// issuance grow by exactly `amount` and the global invariant is kept.
    pub fn mint_unsafe(&self, store: &mut Store, dest: AccountId, amount: Balance) -> (r: Result<
        Event,
        Error,
    >)
        requires
            consistent(old(store)@),
            amount >= self.min() ==> issuance_or_zero(old(store)@) + amount <= Balance::MAX,
        ensures
            r == mint_outcome(self.min(), dest, amount),
            r is Ok ==> final(store)@ == mint_post(old(store)@, dest, amount),
            r is Err ==> final(store)@ == old(store)@,
            consistent(final(store)@),
    {
        if amount < self.min_amount {
            return Err(Error::BelowMinAmount);
        }
        proof {
            lemma_sum_nonneg(old(store)@.balances);
            if old(store)@.balances.contains_key(dest) {
                lemma_entry_le_sum(old(store)@.balances, dest);
            }
            lemma_sum_insert(
                old(store)@.balances,
                dest,
                (balance_or_zero(old(store)@, dest) + amount) as Balance,
            );
        }
        let current = match store.get_balance(dest) {
            Some(b) => b,
            None => 0,
        };
        store.set_balance(dest, current + amount);
        let issued = match store.get_issuance() {
            Some(t) => t,
            None => 0,
        };
        store.set_issuance(issued + amount);
        Ok(Event::Mint { to: dest, amount })
    }

    /// Moves `amount` from `from` to `to`.  Rejects, before any write, a
    /// source that has never held a balance and an amount above the source's
    /// balance; on success the source shrinks and the destination grows by
    /// exactly `amount` (a self-transfer nets out unchanged), the issuance is
    /// untouched, and the global invariant is kept.
    pub fn transfer(
        &self,
        store: &mut Store,
        from: AccountId,
        to: AccountId,
        amount: Balance,
    ) -> (r: Result<Event, Error>)
        requires
            consistent(old(store)@),
        ensures
            r == transfer_outcome(old(store)@, from, to, amount),
            r is Ok ==> final(store)@ == transfer_post(old(store)@, from, to, amount),
            r is Err ==> final(store)@ == old(store)@,
            consistent(final(store)@),
    {
        let from_balance = match store.get_balance(from) {
            Some(b) => b,
            None => { return Err(Error::NonExistentAccount) },
        };
        if amount > from_balance {
            return Err(Error::InsufficientBalance);
        }
        let remainder = from_balance - amount;
        proof {
            lemma_entry_le_sum(old(store)@.balances, from);
            lemma_sum_insert(old(store)@.balances, from, remainder);
        }
        store.set_balance(from, remainder);
        let ghost debited = store@;
        proof {
            lemma_sum_nonneg(debited.balances);
            if debited.balances.contains_key(to) {
                lemma_entry_le_sum(debited.balances, to);
            }
            lemma_sum_insert(debited.balances, to, (balance_or_zero(debited, to) + amount) as Balance);
        }
        let credited = match store.get_balance(to) {
            Some(b) => b,
            None => 0,
        };
        store.set_balance(to, credited + amount);
        Ok(Event::Transfer { from, to, amount })
    }
}

} // verus!

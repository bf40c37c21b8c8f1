//! The Ledger Store: an abstract key-value map from account identifiers to
//! balances, plus one scalar slot for the total issuance.  The store itself
//! performs no validation; that is the operations' responsibility.

use vstd::prelude::*;

verus! {

use crate::AccountId;
use crate::Balance;
use crate::map_sum::sum_of;
use vstd::hash_map::HashMapWithView;

/// The mathematical content of a [`Store`]: which balance each account holds
/// (absence of a key means the account has never held one, distinct from a
/// balance of zero) and the issuance slot (absent until the first credit).
#[verifier::ext_equal]
pub struct StoreView {
    pub balances: Map<AccountId, Balance>,
    pub issuance: Option<Balance>,
}

/// The balance `v` records for `a`, defaulting to zero if `a` is absent.
pub open spec fn balance_or_zero(v: StoreView, a: AccountId) -> int {
    if v.balances.contains_key(a) {
        v.balances[a] as int
    } else {
        0
    }
}

/// The issuance `v` records, defaulting to zero if the slot is absent.
pub open spec fn issuance_or_zero(v: StoreView) -> int {
    match v.issuance {
        Some(t) => t as int,
        None => 0,
    }
}

/// The ledger's global invariant: the issuance slot equals the sum of all
/// stored balances, and the slot is absent only while no account holds one.
pub open spec fn consistent(v: StoreView) -> bool {
    &&& v.balances.dom().finite()
    &&& issuance_or_zero(v) == sum_of(v.balances)
    &&& v.issuance is None ==> v.balances.dom().is_empty()
}

/// An in-memory Ledger Store.  Writes performed during one operation are
/// visible to that operation's later reads.
pub struct Store {
    balances: HashMapWithView<AccountId, Balance>,
    issuance: Option<Balance>,
}

impl View for Store {
    type V = StoreView;

    closed spec fn view(&self) -> StoreView {
        StoreView { balances: self.balances@, issuance: self.issuance }
    }
}

impl Store {
    /// An empty store: no balances, no issuance recorded.
    pub fn new() -> (s: Store)
        ensures
            s@.balances == Map::<AccountId, Balance>::empty(),
            s@.issuance is None,
            consistent(s@),
    {
        proof {
            crate::map_sum::lemma_sum_empty();
        }
        Store { balances: HashMapWithView::new(), issuance: None }
    }

    /// Reads `a`'s balance; `None` if `a` has never held one.  No side effects.
    pub fn get_balance(&self, a: AccountId) -> (r: Option<Balance>)
        ensures
            r == (if self@.balances.contains_key(a) {
                Some(self@.balances[a])
            } else {
                None::<Balance>
            }),
    {
        match self.balances.get(&a) {
            Some(b) => Some(*b),
            None => None,
        }
    }

    /// Overwrites `a`'s balance, creating the key if it is absent.
    pub fn set_balance(&mut self, a: AccountId, b: Balance)
        ensures
            final(self)@.balances == old(self)@.balances.insert(a, b),
            final(self)@.issuance == old(self)@.issuance,
    {
        self.balances.insert(a, b);
    }

    /// Reads the total issuance; `None` before the first credit.
    pub fn get_issuance(&self) -> (r: Option<Balance>)
        ensures
            r == self@.issuance,
    {
        self.issuance
    }

    /// Overwrites the total issuance slot.
    pub fn set_issuance(&mut self, t: Balance)
        ensures
            final(self)@.balances == old(self)@.balances,
            final(self)@.issuance == Some(t),
    {
        self.issuance = Some(t);
    }
}

} // verus!

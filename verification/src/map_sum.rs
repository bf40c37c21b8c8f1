//! The mathematical sum of the balances held in a map, with the lemmas the
//! ledger's invariant proofs need: how the sum changes under `insert` and
//! `remove`, that it is never negative, and that no single entry exceeds it.

use vstd::prelude::*;

verus! {

use crate::AccountId;
use crate::Balance;

/// The sum of all values of `m`, as a mathematical integer.  Only meaningful
/// for maps with a finite domain; every map the ledger builds is finite.
pub open spec fn sum_of(m: Map<AccountId, Balance>) -> int
    recommends
        m.dom().finite(),
    decreases m.dom().len(),
    when m.dom().finite()
{
    if m.dom().is_empty() {
        0
    } else {
        let k = m.dom().choose();
        m[k] + sum_of(m.remove(k))
    }
}

/// Splitting off any one entry: the sum of `m` is that entry's value plus the
/// sum of the rest.
pub proof fn lemma_sum_remove(m: Map<AccountId, Balance>, k: AccountId)
    requires
        m.dom().finite(),
        m.contains_key(k),
    ensures
        sum_of(m) == m[k] + sum_of(m.remove(k)),
    decreases m.dom().len(),
{
    broadcast use vstd::set::group_set_axioms, vstd::map::group_map_axioms;

    let c = m.dom().choose();
    assert(m.dom().contains(k));
    assert(!m.dom().is_empty());
    assert(m.dom().contains(c));
    if c == k {
    } else {
        lemma_sum_remove(m.remove(c), k);
        lemma_sum_remove(m.remove(k), c);
        assert(m.remove(c).remove(k) =~= m.remove(k).remove(c));
    }
}

/// The sum of a map of unsigned balances is never negative.
pub proof fn lemma_sum_nonneg(m: Map<AccountId, Balance>)
    requires
        m.dom().finite(),
    ensures
        0 <= sum_of(m),
    decreases m.dom().len(),
{
    broadcast use vstd::set::group_set_axioms, vstd::map::group_map_axioms;

    if m.dom().is_empty() {
    } else {
        let k = m.dom().choose();
        assert(m.dom().contains(k));
        lemma_sum_nonneg(m.remove(k));
    }
}

/// No single stored balance exceeds the sum of all stored balances.
pub proof fn lemma_entry_le_sum(m: Map<AccountId, Balance>, k: AccountId)
    requires
        m.dom().finite(),
        m.contains_key(k),
    ensures
        m[k] <= sum_of(m),
{
    broadcast use vstd::set::group_set_axioms, vstd::map::group_map_axioms;

    lemma_sum_remove(m, k);
    lemma_sum_nonneg(m.remove(k));
}

/// How the sum changes when `k` is bound to `v`: the old contribution of `k`
/// (zero if `k` was absent) leaves the sum and `v` enters it.
pub proof fn lemma_sum_insert(m: Map<AccountId, Balance>, k: AccountId, v: Balance)
    requires
        m.dom().finite(),
    ensures
        sum_of(m.insert(k, v)) == sum_of(m) - (if m.contains_key(k) {
            m[k] as int
        } else {
            0
        }) + v,
{
    broadcast use vstd::set::group_set_axioms, vstd::map::group_map_axioms;

    let mi = m.insert(k, v);
    assert(mi.dom().finite());
    lemma_sum_remove(mi, k);
    if m.contains_key(k) {
        lemma_sum_remove(m, k);
        assert(mi.remove(k) =~= m.remove(k));
    } else {
        assert(mi.remove(k) =~= m);
    }
}

/// The empty map sums to zero.
pub proof fn lemma_sum_empty()
    ensures
        sum_of(Map::<AccountId, Balance>::empty()) == 0,
{
    broadcast use vstd::set::group_set_axioms, vstd::map::group_map_axioms;

    assert(Map::<AccountId, Balance>::empty().dom().is_empty());
}

} // verus!

//! The ledger's laws, stated and proved over the spec-level transitions that
//! the operations' contracts are written against: per-step invariant
//! preservation, its closure over arbitrary sequences of successful calls,
//! non-negativity of balances and remainders, minimum-amount enforcement,
//! and the self-transfer identity.

use vstd::prelude::*;

verus! {

use crate::AccountId;
use crate::Balance;
use crate::map_sum::lemma_entry_le_sum;
use crate::map_sum::lemma_sum_insert;
use crate::map_sum::lemma_sum_nonneg;
use crate::pallet::Error;
use crate::pallet::Event;
use crate::pallet::mint_outcome;
use crate::pallet::mint_post;
use crate::pallet::transfer_outcome;
use crate::pallet::transfer_post;
use crate::store::StoreView;
use crate::store::balance_or_zero;
use crate::store::consistent;
use crate::store::issuance_or_zero;

/// Invariant preservation under a credit: from any consistent store, a
/// successful credit keeps the issuance equal to the sum of all balances,
/// raises the destination's balance and the issuance by exactly the credited
/// amount, and touches no other account.
pub proof fn lemma_mint_preserves_invariant(v: StoreView, dest: AccountId, amount: Balance)
    requires
        consistent(v),
        issuance_or_zero(v) + amount <= Balance::MAX,
    ensures
        consistent(mint_post(v, dest, amount)),
        issuance_or_zero(mint_post(v, dest, amount)) == issuance_or_zero(v) + amount,
        balance_or_zero(mint_post(v, dest, amount), dest) == balance_or_zero(v, dest) + amount,
        forall|a: AccountId|
            a != dest ==> balance_or_zero(mint_post(v, dest, amount), a) == balance_or_zero(v, a),
{
    lemma_sum_nonneg(v.balances);
    if v.balances.contains_key(dest) {
        lemma_entry_le_sum(v.balances, dest);
    }
    lemma_sum_insert(v.balances, dest, (balance_or_zero(v, dest) + amount) as Balance);
}

/// Invariant preservation under a transfer: from any consistent store, a
/// successful transfer keeps the issuance equal to the sum of all balances
/// and leaves the issuance itself untouched; between distinct accounts the
/// source shrinks and the destination grows by exactly the moved amount, and
/// no other account changes.
pub proof fn lemma_transfer_preserves_invariant(
    v: StoreView,
    from: AccountId,
    to: AccountId,
    amount: Balance,
)
    requires
        consistent(v),
        v.balances.contains_key(from),
        amount <= v.balances[from],
    ensures
        consistent(transfer_post(v, from, to, amount)),
        issuance_or_zero(transfer_post(v, from, to, amount)) == issuance_or_zero(v),
        from != to ==> balance_or_zero(transfer_post(v, from, to, amount), from)
            == balance_or_zero(v, from) - amount,
        from != to ==> balance_or_zero(transfer_post(v, from, to, amount), to)
            == balance_or_zero(v, to) + amount,
        forall|a: AccountId|
            a != from && a != to ==> balance_or_zero(transfer_post(v, from, to, amount), a)
                == balance_or_zero(v, a),
{
    let debited = StoreView {
        balances: v.balances.insert(from, (v.balances[from] - amount) as Balance),
        issuance: v.issuance,
    };
    lemma_entry_le_sum(v.balances, from);
    lemma_sum_insert(v.balances, from, (v.balances[from] - amount) as Balance);
    lemma_sum_nonneg(debited.balances);
    if debited.balances.contains_key(to) {
        lemma_entry_le_sum(debited.balances, to);
    }
    lemma_sum_insert(debited.balances, to, (balance_or_zero(debited, to) + amount) as Balance);
}

/// One ledger call, described by its arguments alone.
pub enum Op {
    Mint { dest: AccountId, amount: Balance },
    Transfer { from: AccountId, to: AccountId, amount: Balance },
}

/// Whether `op`, issued against the store `v` under the configured minimum
/// `min`, succeeds: its policy checks pass and, for a credit, the issuance
/// stays representable.
pub open spec fn op_allowed(v: StoreView, min: Balance, op: Op) -> bool {
    match op {
        Op::Mint { dest, amount } => mint_outcome(min, dest, amount) is Ok && issuance_or_zero(v)
            + amount <= Balance::MAX,
        Op::Transfer { from, to, amount } => transfer_outcome(v, from, to, amount) is Ok,
    }
}

/// The store after `op` succeeds against `v`.
pub open spec fn op_apply(v: StoreView, op: Op) -> StoreView {
    match op {
        Op::Mint { dest, amount } => mint_post(v, dest, amount),
        Op::Transfer { from, to, amount } => transfer_post(v, from, to, amount),
    }
}

/// Whether every call of `ops`, issued in order from `v`, succeeds.
pub open spec fn ops_allowed(v: StoreView, min: Balance, ops: Seq<Op>) -> bool
    decreases ops.len(),
{
    ops.len() == 0 || (op_allowed(v, min, ops[0]) && ops_allowed(
        op_apply(v, ops[0]),
        min,
        ops.drop_first(),
    ))
}

/// The store after the calls of `ops`, issued in order from `v`.
pub open spec fn run_ops(v: StoreView, ops: Seq<Op>) -> StoreView
    decreases ops.len(),
{
    if ops.len() == 0 {
        v
    } else {
        run_ops(op_apply(v, ops[0]), ops.drop_first())
    }
}

/// Invariant preservation over whole call sequences: from any consistent
/// store, every sequence of successful credits and transfers ends in a
/// consistent store — and since every prefix of such a sequence is itself
/// such a sequence, the issuance equals the sum of all balances after every
/// call along the way.
pub proof fn lemma_invariant_holds_along_sequences(v: StoreView, min: Balance, ops: Seq<Op>)
    requires
        consistent(v),
        ops_allowed(v, min, ops),
    ensures
        consistent(run_ops(v, ops)),
    decreases ops.len(),
{
    if ops.len() > 0 {
        match ops[0] {
            Op::Mint { dest, amount } => lemma_mint_preserves_invariant(v, dest, amount),
            Op::Transfer { from, to, amount } => lemma_transfer_preserves_invariant(
                v,
                from,
                to,
                amount,
            ),
        }
        lemma_invariant_holds_along_sequences(op_apply(v, ops[0]), min, ops.drop_first());
    }
}

/// No negative balances: in a consistent store every balance lies between
/// zero and the issuance, a transfer succeeds only when the source covers the
/// amount, and the source's remainder after a successful transfer is itself
/// non-negative.
pub proof fn lemma_no_negative_balances(
    v: StoreView,
    from: AccountId,
    to: AccountId,
    amount: Balance,
)
    requires
        consistent(v),
    ensures
        0 <= balance_or_zero(v, from) <= issuance_or_zero(v),
        transfer_outcome(v, from, to, amount) is Ok ==> 0 <= balance_or_zero(v, from) - amount,
        transfer_outcome(v, from, to, amount) is Ok ==> 0 <= balance_or_zero(
            transfer_post(v, from, to, amount),
            from,
        ),
{
    lemma_sum_nonneg(v.balances);
    if v.balances.contains_key(from) {
        lemma_entry_le_sum(v.balances, from);
    }
}

/// Minimum-amount enforcement: a credit under the configured minimum always
/// rejects with `BelowMinAmount`, and one at or above it always yields the
/// credit effect.
pub proof fn lemma_min_amount_enforced(min: Balance, to: AccountId, amount: Balance)
    ensures
        amount < min <==> mint_outcome(min, to, amount) == Err::<Event, Error>(
            Error::BelowMinAmount,
        ),
        amount >= min <==> mint_outcome(min, to, amount) == Ok::<Event, Error>(
            Event::Mint { to, amount },
        ),
{
}

/// Self-transfer identity: a transfer from an account to itself succeeds
/// whenever the account covers the amount and leaves the whole store exactly
/// as it was; when the amount exceeds the balance it rejects with
/// `InsufficientBalance`, judged against the pre-call balance.
pub proof fn lemma_self_transfer_identity(v: StoreView, a: AccountId, amount: Balance)
    requires
        consistent(v),
        v.balances.contains_key(a),
    ensures
        amount <= v.balances[a] ==> transfer_outcome(v, a, a, amount) == Ok::<Event, Error>(
            Event::Transfer { from: a, to: a, amount },
        ) && transfer_post(v, a, a, amount) == v,
        amount > v.balances[a] ==> transfer_outcome(v, a, a, amount) == Err::<Event, Error>(
            Error::InsufficientBalance,
        ),
{
    if amount <= v.balances[a] {
        let post = transfer_post(v, a, a, amount);
        assert(post.balances =~= v.balances);
        assert(post =~= v);
    }
}

} // verus!

use pallet_currency::pallet::Error;
use pallet_currency::pallet::Event;
use pallet_currency::pallet::Pallet;
use pallet_currency::store::Store;

#[test]
fn should_mint_unsafe() {
    let pallet = Pallet::new(1);
    let mut store = Store::new();

    assert_eq!(store.get_balance(1), None);
    assert_eq!(store.get_issuance(), None);

    const DEST: u64 = 1;
    const AMOUNT: u128 = 100;

    let r = pallet.mint_unsafe(&mut store, DEST, AMOUNT);
    assert!(r.is_ok());

    assert_eq!(store.get_balance(1), Some(100));
    assert_eq!(store.get_issuance(), Some(100));

    assert_eq!(r, Ok(Event::Mint { to: DEST, amount: AMOUNT }));
}

#[test]
fn should_not_mint_unsafe_below_min_amount() {
    let pallet = Pallet::new(1);
    let mut store = Store::new();

    assert_eq!(pallet.mint_unsafe(&mut store, 2, 0), Err(Error::BelowMinAmount));
    assert_eq!(store.get_balance(2), None);
    assert_eq!(store.get_issuance(), None);
}

#[test]
fn should_transfer() {
    let pallet = Pallet::new(1);
    let mut store = Store::new();

    assert!(pallet.mint_unsafe(&mut store, 1, 100).is_ok());

    assert_eq!(store.get_balance(1), Some(100));
    assert_eq!(store.get_issuance(), Some(100));

    const FROM: u64 = 1;
    const TO: u64 = 2;
    const AMOUNT: u128 = 50;

    let r = pallet.transfer(&mut store, FROM, TO, AMOUNT);
    assert!(r.is_ok());
    assert_eq!(r, Ok(Event::Transfer { from: FROM, to: TO, amount: AMOUNT }));

    assert_eq!(store.get_balance(2), Some(50));
}

#[test]
fn should_not_transfer_insufficient_balance() {
    let pallet = Pallet::new(1);
    let mut store = Store::new();

    assert!(pallet.mint_unsafe(&mut store, 1, 100).is_ok());

    assert_eq!(store.get_balance(1), Some(100));
    assert_eq!(store.get_issuance(), Some(100));

    assert_eq!(pallet.transfer(&mut store, 1, 2, 101), Err(Error::InsufficientBalance));
    assert_eq!(store.get_balance(1), Some(100));
    assert_eq!(store.get_balance(2), None);
    assert_eq!(store.get_issuance(), Some(100));
}

#[test]
fn should_not_transfer_non_existent_account() {
    let pallet = Pallet::new(1);
    let mut store = Store::new();

    assert_eq!(store.get_balance(6), None);

    assert_eq!(pallet.transfer(&mut store, 6, 2, 101), Err(Error::NonExistentAccount));
    assert_eq!(store.get_balance(6), None);
    assert_eq!(store.get_issuance(), None);
}

// The issuance counter tracks the sum of all balances across a whole sequence
// of successful credits and transfers.
#[test]
fn issuance_matches_sum_across_sequence() {
    let pallet = Pallet::new(1);
    let mut store = Store::new();

    assert!(pallet.mint_unsafe(&mut store, 1, 100).is_ok());
    assert_eq!(store.get_issuance(), Some(100));

    assert!(pallet.mint_unsafe(&mut store, 2, 40).is_ok());
    assert_eq!(store.get_issuance(), Some(140));
    assert_eq!(
        store.get_balance(1).unwrap() + store.get_balance(2).unwrap(),
        store.get_issuance().unwrap()
    );

    assert!(pallet.transfer(&mut store, 1, 3, 25).is_ok());
    assert_eq!(store.get_balance(1), Some(75));
    assert_eq!(store.get_balance(3), Some(25));
    assert_eq!(store.get_issuance(), Some(140));
    assert_eq!(
        store.get_balance(1).unwrap() + store.get_balance(2).unwrap()
            + store.get_balance(3).unwrap(),
        store.get_issuance().unwrap()
    );

    assert!(pallet.transfer(&mut store, 2, 1, 40).is_ok());
    assert_eq!(store.get_balance(2), Some(0));
    assert_eq!(store.get_balance(1), Some(115));
    assert_eq!(store.get_issuance(), Some(140));
}

// Draining an account leaves a recorded balance of zero, which is distinct
// from never having held one.
#[test]
fn full_transfer_leaves_zero_not_absent() {
    let pallet = Pallet::new(1);
    let mut store = Store::new();

    assert!(pallet.mint_unsafe(&mut store, 1, 100).is_ok());
    assert!(pallet.transfer(&mut store, 1, 2, 100).is_ok());

    assert_eq!(store.get_balance(1), Some(0));
    assert_eq!(store.get_balance(2), Some(100));
    assert_eq!(store.get_issuance(), Some(100));
}

// A credit of exactly the configured minimum succeeds; one just below it
// rejects and leaves the store untouched.
#[test]
fn min_amount_boundary() {
    let pallet = Pallet::new(5);
    let mut store = Store::new();

    assert_eq!(pallet.mint_unsafe(&mut store, 1, 4), Err(Error::BelowMinAmount));
    assert_eq!(store.get_balance(1), None);
    assert_eq!(store.get_issuance(), None);

    let r = pallet.mint_unsafe(&mut store, 1, 5);
    assert_eq!(r, Ok(Event::Mint { to: 1, amount: 5 }));
    assert_eq!(store.get_balance(1), Some(5));
    assert_eq!(store.get_issuance(), Some(5));
}

// A self-transfer the balance covers succeeds and leaves the balance exactly
// as it was; one above the balance rejects against the pre-call balance.
#[test]
fn self_transfer_identity() {
    let pallet = Pallet::new(1);
    let mut store = Store::new();

    assert!(pallet.mint_unsafe(&mut store, 1, 100).is_ok());

    let r = pallet.transfer(&mut store, 1, 1, 60);
    assert_eq!(r, Ok(Event::Transfer { from: 1, to: 1, amount: 60 }));
    assert_eq!(store.get_balance(1), Some(100));
    assert_eq!(store.get_issuance(), Some(100));

    assert_eq!(pallet.transfer(&mut store, 1, 1, 101), Err(Error::InsufficientBalance));
    assert_eq!(store.get_balance(1), Some(100));
}

// The scenarios of the design's property list, starting from an empty store
// with a minimum amount of 1.
#[test]
fn ledger_scenarios() {
    let pallet = Pallet::new(1);
    let mut store = Store::new();
    let alice: u64 = 10;
    let bob: u64 = 11;
    let carol: u64 = 12;

    assert_eq!(pallet.mint_unsafe(&mut store, alice, 100), Ok(Event::Mint { to: alice, amount: 100 }));
    assert_eq!(store.get_balance(alice), Some(100));
    assert_eq!(store.get_issuance(), Some(100));

    assert_eq!(pallet.mint_unsafe(&mut store, bob, 0), Err(Error::BelowMinAmount));
    assert_eq!(store.get_balance(bob), None);

    assert_eq!(
        pallet.transfer(&mut store, alice, bob, 50),
        Ok(Event::Transfer { from: alice, to: bob, amount: 50 })
    );
    assert_eq!(store.get_balance(alice), Some(50));
    assert_eq!(store.get_balance(bob), Some(50));
    assert_eq!(store.get_issuance(), Some(100));

    assert_eq!(pallet.transfer(&mut store, alice, bob, 51), Err(Error::InsufficientBalance));
    assert_eq!(store.get_balance(alice), Some(50));
    assert_eq!(store.get_balance(bob), Some(50));

    let mut empty = Store::new();
    assert_eq!(pallet.transfer(&mut empty, carol, bob, 1), Err(Error::NonExistentAccount));
    assert_eq!(empty.get_issuance(), None);
}

// The widest representable amount can be minted and then moved whole.
#[test]
fn largest_amount_round_trip() {
    let pallet = Pallet::new(1);
    let mut store = Store::new();

    assert!(pallet.mint_unsafe(&mut store, 1, u128::MAX).is_ok());
    assert_eq!(store.get_balance(1), Some(u128::MAX));
    assert_eq!(store.get_issuance(), Some(u128::MAX));

    assert!(pallet.transfer(&mut store, 1, 2, u128::MAX).is_ok());
    assert_eq!(store.get_balance(1), Some(0));
    assert_eq!(store.get_balance(2), Some(u128::MAX));
    assert_eq!(store.get_issuance(), Some(u128::MAX));
}

// The store's primitives alone: overwrite semantics and read-your-write.
#[test]
fn store_primitives() {
    let mut store = Store::new();

    assert_eq!(store.get_balance(1), None);
    store.set_balance(1, 7);
    assert_eq!(store.get_balance(1), Some(7));
    store.set_balance(1, 9);
    assert_eq!(store.get_balance(1), Some(9));

    assert_eq!(store.get_issuance(), None);
    store.set_issuance(9);
    assert_eq!(store.get_issuance(), Some(9));
}

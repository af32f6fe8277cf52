use pocs::custom_token::{Error, Event, Pallet};
use pocs::frame::{DispatchError, Origin};

fn buy(pallet: &mut Pallet, who: u64, amount: u32) {
    let mut native: u128 = 1000;
    pallet.exchange_native_to_custom_token(Origin::Signed(who), amount, &mut native).unwrap();
}

#[test]
fn exchange_debits_the_native_balance_and_credits_tokens() {
    let mut pallet = Pallet::new();
    let mut native: u128 = 150;
    assert_eq!(pallet.exchange_native_to_custom_token(Origin::Signed(1), 50, &mut native), Ok(()));
    assert_eq!(native, 50);
    assert_eq!(pallet.balance_of(1), Some(50));
}

#[test]
fn exchange_keeps_the_tokens_held_before() {
    let mut pallet = Pallet::new();
    let mut native: u128 = 100;
    pallet.exchange_native_to_custom_token(Origin::Signed(1), 20, &mut native).unwrap();
    pallet.exchange_native_to_custom_token(Origin::Signed(1), 30, &mut native).unwrap();
    assert_eq!(pallet.balance_of(1), Some(50));
    assert_eq!(native, 0);
}

#[test]
fn exchange_needs_enough_native_balance() {
    let mut pallet = Pallet::new();
    let mut native: u128 = 99;
    assert_eq!(
        pallet.exchange_native_to_custom_token(Origin::Signed(1), 50, &mut native),
        Err(DispatchError::Module(Error::NoSufficientBalance))
    );
    assert_eq!(native, 99);
    assert_eq!(pallet.balance_of(1), None);
}

#[test]
fn exchange_needs_a_signer() {
    let mut pallet = Pallet::new();
    let mut native: u128 = 100;
    assert_eq!(pallet.exchange_native_to_custom_token(Origin::Root, 1, &mut native), Err(DispatchError::BadOrigin));
    assert_eq!(native, 100);
}

#[test]
fn transfer_moves_tokens_and_keeps_the_supply() {
    let mut pallet = Pallet::new();
    buy(&mut pallet, 1, 70);
    buy(&mut pallet, 2, 5);
    assert_eq!(pallet.my_transfer(Origin::Signed(1), 2, 30), Ok(()));
    assert_eq!(pallet.balance_of(1), Some(40));
    assert_eq!(pallet.balance_of(2), Some(35));
    assert_eq!(pallet.balance_of(1).unwrap() + pallet.balance_of(2).unwrap(), 75);
    assert_eq!(pallet.events().last(), Some(&Event::TokenTransferred { from: 1, to: 2, amount: 30 }));
}

#[test]
fn transfer_to_a_new_account_creates_its_balance() {
    let mut pallet = Pallet::new();
    buy(&mut pallet, 1, 10);
    assert_eq!(pallet.my_transfer(Origin::Signed(1), 9, 10), Ok(()));
    assert_eq!(pallet.balance_of(1), Some(0));
    assert_eq!(pallet.balance_of(9), Some(10));
}

#[test]
fn transfer_to_oneself_changes_no_balance() {
    let mut pallet = Pallet::new();
    buy(&mut pallet, 1, 10);
    assert_eq!(pallet.my_transfer(Origin::Signed(1), 1, 4), Ok(()));
    assert_eq!(pallet.balance_of(1), Some(10));
}

#[test]
fn transfer_is_refused_beyond_the_balance() {
    let mut pallet = Pallet::new();
    buy(&mut pallet, 1, 10);
    assert_eq!(pallet.my_transfer(Origin::Signed(1), 2, 11), Err(DispatchError::Module(Error::NoSufficientBalance)));
    assert_eq!(pallet.my_transfer(Origin::Signed(3), 2, 1), Err(DispatchError::Module(Error::NoSufficientBalance)));
    assert_eq!(pallet.balance_of(1), Some(10));
    assert_eq!(pallet.balance_of(3), None);
    assert_eq!(pallet.my_transfer(Origin::Unsigned, 2, 1), Err(DispatchError::BadOrigin));
    assert!(pallet.events().is_empty());
}

#[test]
fn get_balance_announces_the_balance() {
    let mut pallet = Pallet::new();
    buy(&mut pallet, 1, 12);
    assert_eq!(pallet.get_balance(Origin::Signed(1)), Ok(()));
    assert_eq!(pallet.events().last(), Some(&Event::Balance { amount: 12 }));
    assert_eq!(pallet.get_balance(Origin::Signed(4)), Ok(()));
    assert_eq!(pallet.events().last(), Some(&Event::Balance { amount: 0 }));
    assert_eq!(pallet.balance_of(4), Some(0));
    assert_eq!(pallet.get_balance(Origin::Root), Err(DispatchError::BadOrigin));
}

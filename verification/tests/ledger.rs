use anchor_lang::prelude::Pubkey;
use neurolov::{InsufficientBalance, MemoryLedger, TransferCapability};

fn key(tag: u8) -> Pubkey {
    Pubkey::new_from_array([tag; 32])
}

#[test]
fn new_ledger_holds_nothing() {
    let ledger = MemoryLedger::new();

    assert_eq!(ledger.balance_of(&key(1)), 0);
    assert_eq!(ledger.supply(), 0);
}

#[test]
fn deposits_add_up_per_account() {
    let mut ledger = MemoryLedger::new();

    assert!(ledger.deposit(&key(1), 40));
    assert!(ledger.deposit(&key(2), 7));
    assert!(ledger.deposit(&key(1), 2));

    assert_eq!(ledger.balance_of(&key(1)), 42);
    assert_eq!(ledger.balance_of(&key(2)), 7);
    assert_eq!(ledger.balance_of(&key(3)), 0);
    assert_eq!(ledger.supply(), 49);
}

#[test]
fn deposit_beyond_the_largest_supply_is_refused() {
    let mut ledger = MemoryLedger::new();
    assert!(ledger.deposit(&key(1), u64::MAX - 5));
    assert!(ledger.deposit(&key(2), 5));

    assert!(!ledger.deposit(&key(2), 1));
    assert!(!ledger.deposit(&key(3), u64::MAX));
    assert!(ledger.deposit(&key(3), 0));

    assert_eq!(ledger.balance_of(&key(1)), u64::MAX - 5);
    assert_eq!(ledger.balance_of(&key(2)), 5);
    assert_eq!(ledger.balance_of(&key(3)), 0);
    assert_eq!(ledger.supply(), u64::MAX);
}

#[test]
fn transfer_moves_exactly_the_amount() {
    let mut ledger = MemoryLedger::new();
    assert!(ledger.deposit(&key(1), 100));
    assert!(ledger.deposit(&key(2), 30));
    assert!(ledger.deposit(&key(3), 9));

    assert_eq!(ledger.transfer(&key(1), &key(2), 60), Ok(()));

    assert_eq!(ledger.balance_of(&key(1)), 40);
    assert_eq!(ledger.balance_of(&key(2)), 90);
    assert_eq!(ledger.balance_of(&key(3)), 9);
    assert_eq!(ledger.supply(), 139);
}

#[test]
fn transfer_to_an_unseen_account_opens_it() {
    let mut ledger = MemoryLedger::new();
    assert!(ledger.deposit(&key(1), 100));

    assert_eq!(ledger.transfer(&key(1), &key(9), 100), Ok(()));

    assert_eq!(ledger.balance_of(&key(1)), 0);
    assert_eq!(ledger.balance_of(&key(9)), 100);
    assert_eq!(ledger.supply(), 100);
}

#[test]
fn transfer_of_more_than_is_held_changes_nothing() {
    let mut ledger = MemoryLedger::new();
    assert!(ledger.deposit(&key(1), 100));
    assert!(ledger.deposit(&key(2), 30));

    assert_eq!(ledger.transfer(&key(1), &key(2), 101), Err(InsufficientBalance));
    assert_eq!(ledger.transfer(&key(5), &key(2), 1), Err(InsufficientBalance));

    assert_eq!(ledger.balance_of(&key(1)), 100);
    assert_eq!(ledger.balance_of(&key(2)), 30);
    assert_eq!(ledger.balance_of(&key(5)), 0);
    assert_eq!(ledger.supply(), 130);
}

#[test]
fn transfer_of_nothing_always_succeeds() {
    let mut ledger = MemoryLedger::new();
    assert!(ledger.deposit(&key(1), 100));

    assert_eq!(ledger.transfer(&key(1), &key(2), 0), Ok(()));
    assert_eq!(ledger.transfer(&key(7), &key(8), 0), Ok(()));

    assert_eq!(ledger.balance_of(&key(1)), 100);
    assert_eq!(ledger.balance_of(&key(2)), 0);
    assert_eq!(ledger.supply(), 100);
}

#[test]
fn transfer_to_the_paying_account_keeps_its_balance() {
    let mut ledger = MemoryLedger::new();
    assert!(ledger.deposit(&key(1), 100));

    assert_eq!(ledger.transfer(&key(1), &key(1), 100), Ok(()));
    assert_eq!(ledger.transfer(&key(1), &key(1), 101), Err(InsufficientBalance));

    assert_eq!(ledger.balance_of(&key(1)), 100);
    assert_eq!(ledger.supply(), 100);
}

#[test]
fn transfer_of_the_whole_supply_does_not_overflow() {
    let mut ledger = MemoryLedger::new();
    assert!(ledger.deposit(&key(1), u64::MAX - 1));
    assert!(ledger.deposit(&key(2), 1));

    assert_eq!(ledger.transfer(&key(1), &key(2), u64::MAX - 1), Ok(()));

    assert_eq!(ledger.balance_of(&key(1)), 0);
    assert_eq!(ledger.balance_of(&key(2)), u64::MAX);
    assert_eq!(ledger.supply(), u64::MAX);
}

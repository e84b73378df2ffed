use paytweet::{Holder, Identity, Ledger, VaultKey};

fn wallet(tag: u8) -> Holder {
    Holder::Party(Identity::new([tag; 32]))
}

fn custody(tag: u8, uuid: u64) -> Holder {
    Holder::Vault(VaultKey::new(Identity::new([tag; 32]), uuid))
}

#[test]
fn a_new_ledger_holds_nothing() {
    let ledger = Ledger::new();
    assert_eq!(ledger.issued(), 0);
    assert_eq!(ledger.balance_of(&wallet(1)), 0);
}

#[test]
fn mint_adds_to_holder_and_sum() {
    let mut ledger = Ledger::new();
    assert!(ledger.mint(&wallet(1), 40));
    assert!(ledger.mint(&wallet(2), 2));
    assert!(ledger.mint(&wallet(1), 60));
    assert_eq!(ledger.balance_of(&wallet(1)), 100);
    assert_eq!(ledger.balance_of(&wallet(2)), 2);
    assert_eq!(ledger.issued(), 102);
}

#[test]
fn mint_stops_at_the_largest_sum() {
    let mut ledger = Ledger::new();
    assert!(ledger.mint(&wallet(1), u64::MAX));
    assert!(!ledger.mint(&wallet(1), 1));
    assert!(!ledger.mint(&wallet(2), 1));
    assert_eq!(ledger.balance_of(&wallet(1)), u64::MAX);
    assert_eq!(ledger.balance_of(&wallet(2)), 0);
    assert_eq!(ledger.issued(), u64::MAX);
}

#[test]
fn transfer_moves_the_amount() {
    let mut ledger = Ledger::new();
    assert!(ledger.mint(&wallet(1), 100));
    assert!(ledger.transfer(&wallet(1), &custody(1, 1), 30));
    assert_eq!(ledger.balance_of(&wallet(1)), 70);
    assert_eq!(ledger.balance_of(&custody(1, 1)), 30);
    assert_eq!(ledger.balance_of(&custody(1, 2)), 0);
    assert!(ledger.transfer(&custody(1, 1), &wallet(2), 30));
    assert_eq!(ledger.balance_of(&custody(1, 1)), 0);
    assert_eq!(ledger.balance_of(&wallet(2)), 30);
    assert_eq!(ledger.issued(), 100);
}

#[test]
fn transfer_beyond_the_balance_moves_nothing() {
    let mut ledger = Ledger::new();
    assert!(ledger.mint(&wallet(1), 100));
    assert!(!ledger.transfer(&wallet(1), &wallet(2), 101));
    assert!(!ledger.transfer(&wallet(3), &wallet(2), 1));
    assert_eq!(ledger.balance_of(&wallet(1)), 100);
    assert_eq!(ledger.balance_of(&wallet(2)), 0);
    assert_eq!(ledger.issued(), 100);
}

#[test]
fn transfer_to_oneself_or_of_nothing_changes_nothing() {
    let mut ledger = Ledger::new();
    assert!(ledger.mint(&wallet(1), 100));
    assert!(ledger.transfer(&wallet(1), &wallet(1), 100));
    assert!(ledger.transfer(&wallet(1), &wallet(2), 0));
    assert!(ledger.transfer(&wallet(3), &wallet(2), 0));
    assert!(!ledger.transfer(&wallet(1), &wallet(1), 101));
    assert_eq!(ledger.balance_of(&wallet(1)), 100);
    assert_eq!(ledger.balance_of(&wallet(2)), 0);
    assert_eq!(ledger.issued(), 100);
}

#[test]
fn a_party_and_a_vault_are_different_holders() {
    let mut ledger = Ledger::new();
    assert!(ledger.mint(&wallet(1), 5));
    assert!(ledger.mint(&custody(1, 0), 6));
    assert_eq!(ledger.balance_of(&wallet(1)), 5);
    assert_eq!(ledger.balance_of(&custody(1, 0)), 6);
    assert_ne!(wallet(1), custody(1, 0));
    assert_eq!(custody(1, 0), custody(1, 0));
    assert_ne!(custody(1, 0), custody(1, 1));
}

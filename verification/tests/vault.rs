use paytweet::{
    event_matches, is_depositor, is_oracle, ErrorCode, Identity, Vault, VaultKey, VaultState,
};

fn sample() -> Vault {
    Vault::open(Identity::new([1; 32]), Identity::new([2; 32]), 7, 100, 42, [9u8; 256], -5)
}

#[test]
fn open_fills_every_field() {
    let vault = sample();
    assert_eq!(vault.depositor, Identity::new([1; 32]));
    assert_eq!(vault.oracle, Identity::new([2; 32]));
    assert_eq!(vault.uuid, 7);
    assert_eq!(vault.amount, 100);
    assert_eq!(vault.event_id, 42);
    assert_eq!(vault.matching_text, [9u8; 256]);
    assert_eq!(vault.created_at, -5);
    assert_eq!(vault.state, VaultState::Active);
    assert!(vault.is_active());
    assert_eq!(vault.vault_key(), VaultKey::new(Identity::new([1; 32]), 7));
}

#[test]
fn the_guards_compare_with_what_the_vault_stores() {
    let vault = sample();
    assert!(is_oracle(&Identity::new([2; 32]), &vault));
    assert!(!is_oracle(&Identity::new([1; 32]), &vault));
    assert!(is_depositor(&Identity::new([1; 32]), &vault));
    assert!(!is_depositor(&Identity::new([2; 32]), &vault));
    assert!(event_matches(42, &vault));
    assert!(!event_matches(43, &vault));
}

#[test]
fn identities_differ_in_any_single_byte() {
    let base = Identity::new([0; 32]);
    for at in 0..32 {
        let mut bytes = [0u8; 32];
        bytes[at] = 1;
        assert_ne!(Identity::new(bytes), base);
        assert_eq!(Identity::new(bytes), Identity::new(bytes));
        assert_eq!(Identity::new(bytes).to_bytes(), bytes);
    }
    assert_eq!(base, Identity::new([0; 32]));
}

#[test]
fn keys_differ_by_depositor_or_uuid() {
    let one = VaultKey::new(Identity::new([1; 32]), 1);
    assert_eq!(one, VaultKey::new(Identity::new([1; 32]), 1));
    assert_ne!(one, VaultKey::new(Identity::new([1; 32]), 2));
    assert_ne!(one, VaultKey::new(Identity::new([2; 32]), 1));
}

#[test]
fn release_checks_state_then_caller_then_event() {
    let oracle = Identity::new([2; 32]);
    let stranger = Identity::new([3; 32]);
    let mut vault = sample();
    assert_eq!(vault.release(&stranger, 43), Err(ErrorCode::Unauthorized));
    assert_eq!(vault.release(&stranger, 42), Err(ErrorCode::Unauthorized));
    assert_eq!(vault.release(&oracle, 43), Err(ErrorCode::EventMismatch));
    assert_eq!(vault, sample());
    assert_eq!(vault.release(&oracle, 42), Ok(()));
    assert_eq!(vault, Vault { state: VaultState::Released, ..sample() });
    assert!(!vault.is_active());
    assert_eq!(vault.release(&oracle, 42), Err(ErrorCode::VaultNotActive));
    assert_eq!(vault.release(&stranger, 43), Err(ErrorCode::VaultNotActive));
    assert_eq!(vault.cancel(&Identity::new([1; 32]), 42), Err(ErrorCode::VaultNotActive));
    assert_eq!(vault, Vault { state: VaultState::Released, ..sample() });
}

#[test]
fn cancel_checks_state_then_caller_then_event() {
    let depositor = Identity::new([1; 32]);
    let oracle = Identity::new([2; 32]);
    let mut vault = sample();
    assert_eq!(vault.cancel(&oracle, 42), Err(ErrorCode::Unauthorized));
    assert_eq!(vault.cancel(&depositor, 0), Err(ErrorCode::EventMismatch));
    assert_eq!(vault, sample());
    assert_eq!(vault.cancel(&depositor, 42), Ok(()));
    assert_eq!(vault, Vault { state: VaultState::Cancelled, ..sample() });
    assert_eq!(vault.cancel(&depositor, 42), Err(ErrorCode::VaultNotActive));
    assert_eq!(vault.release(&oracle, 42), Err(ErrorCode::VaultNotActive));
}

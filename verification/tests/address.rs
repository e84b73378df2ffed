use anchor_lang::prelude::Pubkey;
use paytweet::{decimal_digits, vault_address, vault_seeds, Identity, VaultKey};

#[test]
fn decimal_digits_of_small_and_large_numbers() {
    assert_eq!(decimal_digits(0), b"0".to_vec());
    assert_eq!(decimal_digits(7), b"7".to_vec());
    assert_eq!(decimal_digits(10), b"10".to_vec());
    assert_eq!(decimal_digits(42), b"42".to_vec());
    assert_eq!(decimal_digits(1_000_000), b"1000000".to_vec());
    assert_eq!(decimal_digits(9_007_199_254_740_993), b"9007199254740993".to_vec());
    assert_eq!(decimal_digits(u64::MAX), b"18446744073709551615".to_vec());
}

#[test]
fn decimal_digits_agree_with_the_standard_rendering() {
    for n in [1u64, 9, 11, 99, 100, 101, 12_345, 4_294_967_296, u64::MAX - 1] {
        assert_eq!(decimal_digits(n), n.to_string().into_bytes());
    }
}

#[test]
fn seeds_are_tag_depositor_and_uuid() {
    let key = VaultKey::new(Identity::new([5; 32]), 1234);
    let seeds = vault_seeds(&key);
    assert_eq!(seeds, vec![b"vault-seed".to_vec(), vec![5u8; 32], b"1234".to_vec()]);
}

#[test]
fn the_address_is_the_one_the_host_derives() {
    let program = Identity::new([7; 32]);
    let depositor = Identity::new([1; 32]);
    let found = vault_address(&program, &VaultKey::new(depositor, 1));
    let seeds: [&[u8]; 3] = [b"vault-seed", &[1u8; 32], b"1"];
    let expected = Pubkey::try_find_program_address(&seeds, &Pubkey::new_from_array([7; 32]));
    assert!(expected.is_some());
    let (address, bump) = found.unwrap();
    assert_eq!(
        address.to_bytes(),
        [
            47, 170, 182, 27, 1, 165, 142, 166, 90, 120, 62, 190, 0, 2, 8, 14, 205, 24, 96, 134,
            21, 20, 227, 237, 230, 32, 57, 248, 87, 105, 174, 16
        ]
    );
    assert_eq!(bump, 254);
    assert_eq!(Some((Pubkey::new_from_array(address.to_bytes()), bump)), expected);
    assert_ne!(address, depositor);
    assert_ne!(address, program);
    assert!(!Pubkey::new_from_array(address.to_bytes()).is_on_curve());
    let with_bump: [&[u8]; 4] = [b"vault-seed", &[1u8; 32], b"1", &[bump]];
    assert_eq!(
        Pubkey::create_program_address(&with_bump, &Pubkey::new_from_array([7; 32])),
        Ok(Pubkey::new_from_array(address.to_bytes()))
    );
}

#[test]
fn the_address_depends_on_program_depositor_and_uuid() {
    let program = Identity::new([7; 32]);
    let depositor = Identity::new([1; 32]);
    let base = vault_address(&program, &VaultKey::new(depositor, 1)).unwrap();
    assert_eq!(vault_address(&program, &VaultKey::new(depositor, 1)), Some(base));
    let other_uuid = vault_address(&program, &VaultKey::new(depositor, 2)).unwrap();
    let other_depositor = vault_address(&program, &VaultKey::new(program, 1)).unwrap();
    let other_program = vault_address(&depositor, &VaultKey::new(depositor, 1)).unwrap();
    assert_ne!(base.0, other_uuid.0);
    assert_ne!(base.0, other_depositor.0);
    assert_ne!(base.0, other_program.0);
}

use anchor_lang::solana_program::pubkey::Pubkey;
use anchor_lang::solana_program::system_instruction;
use paytweet::{funding_instruction, AccountMeta, Identity, Vault};

fn sample() -> Vault {
    Vault::open(Identity::new([1; 32]), Identity::new([2; 32]), 7, 100, 42, [0u8; 256], 0)
}

#[test]
fn the_funding_instruction_is_a_system_transfer() {
    let account = Identity::new([9; 32]);
    let ix = funding_instruction(&sample(), &account);
    assert_eq!(ix.program_id, Identity::new([0; 32]));
    assert_eq!(
        ix.accounts,
        vec![
            AccountMeta { pubkey: Identity::new([1; 32]), is_signer: true, is_writable: true },
            AccountMeta { pubkey: account, is_signer: false, is_writable: true },
        ]
    );
    assert_eq!(ix.data, vec![2, 0, 0, 0, 100, 0, 0, 0, 0, 0, 0, 0]);
}

#[test]
fn the_funding_instruction_is_the_one_the_host_builds() {
    let mut vault = sample();
    vault.amount = 0x0102_0304_0506_0708;
    let ix = funding_instruction(&vault, &Identity::new([9; 32]));
    let expected = system_instruction::transfer(
        &Pubkey::new_from_array([1; 32]),
        &Pubkey::new_from_array([9; 32]),
        0x0102_0304_0506_0708,
    );
    assert_eq!(ix.program_id.to_bytes(), expected.program_id.to_bytes());
    assert_eq!(ix.accounts.len(), expected.accounts.len());
    for (got, wanted) in ix.accounts.iter().zip(expected.accounts.iter()) {
        assert_eq!(got.pubkey.to_bytes(), wanted.pubkey.to_bytes());
        assert_eq!(got.is_signer, wanted.is_signer);
        assert_eq!(got.is_writable, wanted.is_writable);
    }
    assert_eq!(ix.data, expected.data);
    assert_eq!(ix.data, vec![2, 0, 0, 0, 8, 7, 6, 5, 4, 3, 2, 1]);
}

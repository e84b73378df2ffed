//! What the host is asked to carry out. The store keeps its own book; on a
//! host whose accounts hold the real funds, the deposit of a new vault is an
//! instruction to the host's system program.

use anchor_lang::solana_program::pubkey::Pubkey;
use anchor_lang::solana_program::system_instruction;
use vstd::prelude::*;
use crate::identity::Identity;
use crate::vault::Vault;

verus! {

/// How an instruction uses one account.
#[derive(Clone, Copy, Debug, PartialEq, Eq)]
pub struct AccountMeta {
    pub pubkey: Identity,
    /// The account must have signed the transaction.
    pub is_signer: bool,
    /// The instruction may change the account.
    pub is_writable: bool,
}

/// One instruction to a program of the host.
#[derive(Clone, Debug, PartialEq, Eq)]
pub struct Instruction {
    /// The program that carries the instruction out.
    pub program_id: Identity,
    pub accounts: Vec<AccountMeta>,
    /// What the program is told, in its own encoding.
    pub data: Vec<u8>,
}

/// The data that `system_instruction::transfer` gives the instruction it
/// builds from these arguments.
pub uninterp spec fn transfer_data(from: Seq<u8>, to: Seq<u8>, lamports: u64) -> Seq<u8>;

/// The address of the system program: 32 zero bytes.
pub open spec fn system_program() -> Seq<u8> {
    Seq::new(32, |i: int| 0u8)
}

/// Calls `anchor_lang::solana_program::system_instruction::transfer`. Trusted:
/// the instruction goes to the system program; it names two accounts, both
/// writable, first `from`, which must sign, then `to`, which need not; its
/// data is what `transfer_data` names, of which nothing more is claimed.
#[verifier::external_body]
fn system_transfer(from: &[u8; 32], to: &[u8; 32], lamports: u64) -> (ix: Instruction)
    ensures
        ix.program_id.bytes@ == system_program(),
        ix.accounts@.len() == 2,
        ix.accounts@[0].pubkey.bytes@ == from@,
        ix.accounts@[0].is_signer && ix.accounts@[0].is_writable,
        ix.accounts@[1].pubkey.bytes@ == to@,
        !ix.accounts@[1].is_signer && ix.accounts@[1].is_writable,
        ix.data@ == transfer_data(from@, to@, lamports),
{
    let from = Pubkey::new_from_array(*from);
    let ix = system_instruction::transfer(&from, &Pubkey::new_from_array(*to), lamports);
    let accounts = ix.accounts.iter().map(|meta| AccountMeta {
        pubkey: Identity { bytes: meta.pubkey.to_bytes() },
        is_signer: meta.is_signer,
        is_writable: meta.is_writable,
    });
    Instruction {
        program_id: Identity { bytes: ix.program_id.to_bytes() },
        accounts: accounts.collect(),
        data: ix.data,
    }
}

/// The instruction that moves the amount of `vault` from its depositor to the
/// account at `account`, where the host keeps the vault.
pub fn funding_instruction(vault: &Vault, account: &Identity) -> (ix: Instruction)
    ensures
        ix.program_id.bytes@ == system_program(),
        ix.accounts@ == seq![
            AccountMeta { pubkey: vault.depositor, is_signer: true, is_writable: true },
            AccountMeta { pubkey: *account, is_signer: false, is_writable: true },
        ],
        ix.data@ == transfer_data(vault.depositor.bytes@, account.bytes@, vault.amount),
{
    let ix = system_transfer(&vault.depositor.bytes, &account.bytes, vault.amount);
    proof {
        assert(ix.accounts@[0].pubkey.bytes =~= vault.depositor.bytes);
        assert(ix.accounts@[1].pubkey.bytes =~= account.bytes);
        assert(ix.accounts@ =~= seq![
            AccountMeta { pubkey: vault.depositor, is_signer: true, is_writable: true },
            AccountMeta { pubkey: *account, is_signer: false, is_writable: true },
        ]);
    }
    ix
}

} // verus!

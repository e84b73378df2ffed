//! The address at which the host ledger keeps a vault's account. It is derived
//! from the program that owns the vault, the depositor and the uuid, so that a
//! client can find the account without an index.

use anchor_lang::prelude::Pubkey;
use vstd::prelude::*;
use crate::identity::{Identity, VaultKey};

verus! {

/// What `Pubkey::try_find_program_address` returns for the given seeds and
/// program: the derived address with its bump seed, or `None` where no bump
/// seed yields one. It depends on its arguments alone.
pub uninterp spec fn program_address(seeds: Seq<Seq<u8>>, program_id: Seq<u8>) -> Option<
    (Seq<u8>, u8),
>;

/// The content of each seed.
pub open spec fn seed_texts(seeds: Seq<Vec<u8>>) -> Seq<Seq<u8>> {
    seeds.map_values(|seed: Vec<u8>| seed@)
}

/// Calls `anchor_lang::prelude::Pubkey::try_find_program_address` with the
/// seeds in the order given. Trusted: the result is the one that
/// `program_address` names for these seeds and this program; nothing is
/// claimed about which address that is, nor that there is one.
#[verifier::external_body]
fn find_program_address(seeds: &Vec<Vec<u8>>, program_id: &[u8; 32]) -> (found: Option<
    ([u8; 32], u8),
>)
    ensures
        match found {
            Some((address, bump)) => program_address(seed_texts(seeds@), program_id@) == Some(
                (address@, bump),
            ),
            None => program_address(seed_texts(seeds@), program_id@) is None,
        },
{
    let parts: Vec<&[u8]> = seeds.iter().map(|seed| seed.as_slice()).collect();
    Pubkey::try_find_program_address(&parts, &Pubkey::new_from_array(*program_id))
        .map(|(address, bump)| (address.to_bytes(), bump))
}

/// The decimal numeral of `n` in ASCII, without sign or leading zeros.
pub open spec fn decimal_text(n: nat) -> Seq<u8>
    decreases n,
{
    if n < 10 {
        seq![(48 + n) as u8]
    } else {
        decimal_text(n / 10).push((48 + n % 10) as u8)
    }
}

/// The number that a decimal numeral stands for.
pub open spec fn decimal_value(text: Seq<u8>) -> nat
    decreases text.len(),
{
    if text.len() == 0 {
        0
    } else {
        decimal_value(text.drop_last()) * 10 + (text.last() - 48) as nat
    }
}

/// A numeral stands for the number it was written for.
pub proof fn lemma_decimal_value(n: nat)
    ensures
        decimal_value(decimal_text(n)) == n,
    decreases n,
{
    let text = decimal_text(n);
    if n < 10 {
        assert(decimal_value(text.drop_last()) == 0);
    } else {
        lemma_decimal_value(n / 10);
        assert(text.drop_last() == decimal_text(n / 10));
    }
}

/// The first seed of every vault address: the ASCII text `vault-seed`.
pub open spec fn seed_tag() -> Seq<u8> {
    seq![118u8, 97u8, 117u8, 108u8, 116u8, 45u8, 115u8, 101u8, 101u8, 100u8]
}

/// The seeds of the vault under `key`: the tag, the depositor's 32 bytes, and
/// the uuid as a decimal numeral.
pub open spec fn seeds_of(key: VaultKey) -> Seq<Seq<u8>> {
    seq![seed_tag(), key.depositor.bytes@, decimal_text(key.uuid as nat)]
}

/// The address and bump seed of the vault under `key`, for the program
/// `program_id`.
pub open spec fn address_of(program_id: Identity, key: VaultKey) -> Option<(Seq<u8>, u8)> {
    program_address(seeds_of(key), program_id.bytes@)
}

/// What is pushed last comes first after reversal.
proof fn lemma_reverse_push(digits: Seq<u8>, digit: u8)
    ensures
        digits.push(digit).reverse() == seq![digit] + digits.reverse(),
{
    assert(digits.push(digit).reverse() =~= seq![digit] + digits.reverse());
}

/// Writes `n` as a decimal numeral.
pub fn decimal_digits(n: u64) -> (digits: Vec<u8>)
    ensures
        digits@ == decimal_text(n as nat),
{
    let mut low_first: Vec<u8> = Vec::new();
    let mut rest: u64 = n;
    while rest >= 10
        invariant
            decimal_text(n as nat) == decimal_text(rest as nat) + low_first@.reverse(),
        decreases rest,
    {
        let digit: u8 = 48 + (rest % 10) as u8;
        proof {
            lemma_reverse_push(low_first@, digit);
        }
        low_first.push(digit);
        rest = rest / 10;
    }
    let digit: u8 = 48 + rest as u8;
    proof {
        lemma_reverse_push(low_first@, digit);
    }
    low_first.push(digit);
    let mut digits: Vec<u8> = Vec::new();
    let mut taken: usize = low_first.len();
    while taken > 0
        invariant
            taken <= low_first.len(),
            digits@ == low_first@.reverse().take(low_first.len() - taken),
        decreases taken,
    {
        taken -= 1;
        digits.push(low_first[taken]);
        assert(digits@ =~= low_first@.reverse().take(low_first.len() - taken));
    }
    assert(digits@ =~= low_first@.reverse());
    digits
}

/// The bytes of the tag.
fn tag_bytes() -> (tag: Vec<u8>)
    ensures
        tag@ == seed_tag(),
{
    let mut tag: Vec<u8> = Vec::new();
    tag.push(118);
    tag.push(97);
    tag.push(117);
    tag.push(108);
    tag.push(116);
    tag.push(45);
    tag.push(115);
    tag.push(101);
    tag.push(101);
    tag.push(100);
    tag
}

/// The bytes of an identity.
fn identity_bytes(id: &Identity) -> (bytes: Vec<u8>)
    ensures
        bytes@ == id.bytes@,
{
    let mut bytes: Vec<u8> = Vec::new();
    let mut i: usize = 0;
    while i < 32
        invariant
            i <= 32,
            bytes@ == id.bytes@.take(i as int),
        decreases 32 - i,
    {
        bytes.push(id.bytes[i]);
        i += 1;
        assert(bytes@ =~= id.bytes@.take(i as int));
    }
    assert(bytes@ =~= id.bytes@);
    bytes
}

/// The seeds from which the address of the vault under `key` is derived.
pub fn vault_seeds(key: &VaultKey) -> (seeds: Vec<Vec<u8>>)
    ensures
        seed_texts(seeds@) == seeds_of(*key),
{
    let mut seeds: Vec<Vec<u8>> = Vec::new();
    seeds.push(tag_bytes());
    seeds.push(identity_bytes(&key.depositor));
    seeds.push(decimal_digits(key.uuid));
    seeds
}

/// Derives the address of the vault under `key` and the bump seed that goes
/// with it. `None` where the derivation finds no address.
pub fn vault_address(program_id: &Identity, key: &VaultKey) -> (found: Option<(Identity, u8)>)
    ensures
        match found {
            Some((address, bump)) => address_of(*program_id, *key) == Some(
                (address.bytes@, bump),
            ),
            None => address_of(*program_id, *key) is None,
        },
{
    let seeds = vault_seeds(key);
    match find_program_address(&seeds, &program_id.bytes) {
        Some((bytes, bump)) => Some((Identity::new(bytes), bump)),
        None => None,
    }
}

} // verus!

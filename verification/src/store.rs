//! The vault store: all escrow records and the funds they guard, with the
//! three operations that clients may ask for.

use vstd::prelude::*;
use crate::error::ErrorCode;
use crate::identity::{Holder, Identity, VaultKey};
use crate::ledger::{balance_in, Ledger};
use crate::model::{lemma_settled, lemma_step, State};
use crate::request::{Cancel, Create, Operation, PublishTweet};
use crate::table::{as_map, distinct_keys, has_key};
use crate::table::{lemma_as_map_at, lemma_as_map_keys, lemma_as_map_push, lemma_as_map_update};
use crate::vault::{Vault, VaultState};

verus! {

spec fn pairs_of(vaults: Seq<Vault>) -> Seq<(VaultKey, Vault)> {
    vaults.map_values(|v: Vault| (v.key(), v))
}

/// Where the vault under `key` is filed, if it exists.
fn find(vaults: &Vec<Vault>, key: &VaultKey) -> (at: Option<usize>)
    requires
        distinct_keys(pairs_of(vaults@)),
    ensures
        match at {
            Some(i) => {
                &&& i < vaults.len()
                &&& vaults[i as int].key() == *key
                &&& as_map(pairs_of(vaults@)).contains_key(*key)
                &&& as_map(pairs_of(vaults@))[*key] == vaults[i as int]
            },
            None => !as_map(pairs_of(vaults@)).contains_key(*key),
        },
{
    proof {
        lemma_as_map_keys(pairs_of(vaults@));
    }
    let mut i: usize = 0;
    while i < vaults.len()
        invariant
            distinct_keys(pairs_of(vaults@)),
            i <= vaults.len(),
            forall|j: int| 0 <= j < i ==> vaults[j].key() != *key,
        decreases vaults.len() - i,
    {
        if vaults[i].vault_key() == *key {
            proof {
                lemma_as_map_at(pairs_of(vaults@), i as int);
            }
            return Some(i);
        }
        i += 1;
    }
    proof {
        let pairs = pairs_of(vaults@);
        if has_key(pairs, *key) {
            let j = choose|j: int| 0 <= j < pairs.len() && #[trigger] pairs[j].0 == *key;
            assert(vaults[j].key() == *key);
        }
    }
    None
}

/// Vaults filed by key, and the book of all balances. A store is valid at all
/// times: what it stands for satisfies `State::wf`.
pub struct VaultStore {
    ledger: Ledger,
    vaults: Vec<Vault>,
}

impl VaultStore {
    /// The state that the store stands for.
    pub closed spec fn view(&self) -> State {
        State { balances: self.ledger@, vaults: as_map(pairs_of(self.vaults@)) }
    }

    /// No vault is filed twice, and the state is valid.
    #[verifier::type_invariant]
    spec fn inv(self) -> bool {
        &&& distinct_keys(pairs_of(self.vaults@))
        &&& self@.wf()
    }

    /// A store without vaults or funds.
    pub fn new() -> (store: VaultStore)
        ensures
            store@ == State::empty(),
            store@.wf(),
    {
        let store = VaultStore { ledger: Ledger::new(), vaults: Vec::new() };
        assert(pairs_of(store.vaults@) == Seq::<(VaultKey, Vault)>::empty());
        store
    }

    /// The vault under `key`.
    pub fn vault(&self, key: &VaultKey) -> (found: Option<Vault>)
        ensures
            found == (if self@.vaults.contains_key(*key) {
                Some(self@.vaults[*key])
            } else {
                None
            }),
            self@.wf(),
    {
        proof {
            use_type_invariant(self);
        }
        match find(&self.vaults, key) {
            Some(i) => Some(self.vaults[i]),
            None => None,
        }
    }

    /// The spendable balance of `who`.
    pub fn balance_of(&self, who: &Identity) -> (balance: u64)
        ensures
            balance == self@.balance(*who),
            self@.wf(),
    {
        proof {
            use_type_invariant(self);
        }
        self.ledger.balance_of(&Holder::Party(*who))
    }

    /// What the vault under `key` holds in custody.
    pub fn custody_of(&self, key: &VaultKey) -> (balance: u64)
        ensures
            balance == self@.custody(*key),
            self@.wf(),
    {
        proof {
            use_type_invariant(self);
        }
        self.ledger.balance_of(&Holder::Vault(*key))
    }

    /// All funds in the store, spendable or in custody.
    pub fn supply(&self) -> (sum: u64)
        ensures
            sum == self@.supply(),
            self@.wf(),
    {
        proof {
            use_type_invariant(self);
        }
        self.ledger.issued()
    }

    /// Credits `amount` from outside to the spendable balance of `who`.
    /// Refused, with the store unchanged, where the supply would exceed
    /// `u64::MAX`.
    pub fn fund(&mut self, who: &Identity, amount: u64) -> (done: bool)
        ensures
            old(self)@.wf(),
            final(self)@.wf(),
            done == (old(self)@.supply() + amount <= u64::MAX),
            done ==> final(self)@ == (State {
                balances: old(self)@.balances.insert(
                    Holder::Party(*who),
                    (old(self)@.balance(*who) + amount) as nat,
                ),
                ..old(self)@
            }),
            !done ==> final(self)@ == old(self)@,
    {
        proof {
            use_type_invariant(&*self);
        }
        let ghost before = self@;
        let mut taken = VaultStore::new();
        core::mem::swap(self, &mut taken);
        let VaultStore { mut ledger, vaults } = taken;
        let done = ledger.mint(&Holder::Party(*who), amount);
        proof {
            if done {
                assert forall|key: VaultKey|
                    balance_in(ledger@, Holder::Vault(key)) == before.custody(key) by {
                    assert(Holder::Vault(key) != Holder::Party(*who));
                }
            }
        }
        *self = VaultStore { ledger, vaults };
        done
    }

    /// Files `settled` in place of the active vault at `at` and pays all that
    /// this vault holds in custody to `to`.
    fn pay_out(&mut self, at: usize, settled: Vault, to: &Identity)
        requires
            at < old(self).vaults.len(),
            old(self).vaults[at as int].state == VaultState::Active,
            settled.state != VaultState::Active,
            settled == old(self).vaults[at as int].with_state(settled.state),
        ensures
            final(self)@ == old(self)@.settled(settled.key(), *to, settled.state),
            final(self)@.wf(),
    {
        proof {
            use_type_invariant(&*self);
        }
        let key = settled.vault_key();
        let ghost before = pairs_of(self.vaults@);
        proof {
            lemma_as_map_at(before, at as int);
            lemma_settled(self@, key, *to, settled.state);
        }
        let mut taken = VaultStore::new();
        core::mem::swap(self, &mut taken);
        let VaultStore { mut ledger, mut vaults } = taken;
        let custody = ledger.balance_of(&Holder::Vault(key));
        ledger.transfer(&Holder::Vault(key), &Holder::Party(*to), custody);
        vaults[at] = settled;
        proof {
            lemma_as_map_update(before, at as int, settled);
            assert(pairs_of(vaults@) == before.update(at as int, (key, settled)));
        }
        *self = VaultStore { ledger, vaults };
    }
}

/// Opens a vault for `ctx.depositor` under `uuid` and moves `amount` from the
/// depositor's spendable balance into its custody. All or nothing: a refused
/// request files no vault and moves no funds.
pub fn create(
    store: &mut VaultStore,
    ctx: Create,
    uuid: u64,
    amount: u64,
    event_id: u64,
    matching_text: [u8; 256],
) -> (r: Result<(), ErrorCode>)
    ensures
        r == old(store)@.outcome(Operation::Create { ctx, uuid, amount, event_id, matching_text }),
        final(store)@ == old(store)@.step(
            Operation::Create { ctx, uuid, amount, event_id, matching_text },
        ),
        old(store)@.wf(),
        final(store)@.wf(),
{
    proof {
        use_type_invariant(&*store);
    }
    let ghost op = Operation::Create { ctx, uuid, amount, event_id, matching_text };
    if amount == 0 {
        return Err(ErrorCode::InvalidAmount);
    }
    let key = VaultKey::new(ctx.depositor, uuid);
    if find(&store.vaults, &key).is_some() {
        return Err(ErrorCode::DuplicateVault);
    }
    if store.balance_of(&ctx.depositor) < amount {
        return Err(ErrorCode::InsufficientFunds);
    }
    let vault = Vault::open(
        ctx.depositor,
        ctx.oracle,
        uuid,
        amount,
        event_id,
        matching_text,
        ctx.now,
    );
    let ghost before = pairs_of(store.vaults@);
    proof {
        lemma_step(store@, op);
        lemma_as_map_keys(before);
        lemma_as_map_push(before, key, vault);
    }
    let mut taken = VaultStore::new();
    core::mem::swap(store, &mut taken);
    let VaultStore { mut ledger, mut vaults } = taken;
    ledger.transfer(&Holder::Party(ctx.depositor), &Holder::Vault(key), amount);
    vaults.push(vault);
    proof {
        assert(pairs_of(vaults@) == before.push((key, vault)));
    }
    *store = VaultStore { ledger, vaults };
    Ok(())
}

/// Release: the oracle `ctx.caller` reports that event `tweet_id` took place.
/// All that the vault holds in custody goes to `ctx.recipient`, and the vault
/// becomes `Released`, both or neither.
pub fn publish_tweet(store: &mut VaultStore, ctx: PublishTweet, tweet_id: u64) -> (r: Result<
    (),
    ErrorCode,
>)
    ensures
        r == old(store)@.outcome(Operation::PublishTweet { ctx, event_id: tweet_id }),
        final(store)@ == old(store)@.step(Operation::PublishTweet { ctx, event_id: tweet_id }),
        old(store)@.wf(),
        final(store)@.wf(),
{
    proof {
        use_type_invariant(&*store);
    }
    let at = match find(&store.vaults, &ctx.vault) {
        Some(at) => at,
        None => {
            return Err(ErrorCode::VaultNotFound);
        },
    };
    let mut vault = store.vaults[at];
    match vault.release(&ctx.caller, tweet_id) {
        Ok(()) => {
            store.pay_out(at, vault, &ctx.recipient);
            Ok(())
        },
        Err(refusal) => Err(refusal),
    }
}

/// Cancel: the depositor `ctx.caller` takes back what the vault holds in
/// custody, and the vault becomes `Cancelled`, both or neither.
pub fn cancel(store: &mut VaultStore, ctx: Cancel, tweet_id: u64) -> (r: Result<(), ErrorCode>)
    ensures
        r == old(store)@.outcome(Operation::Cancel { ctx, event_id: tweet_id }),
        final(store)@ == old(store)@.step(Operation::Cancel { ctx, event_id: tweet_id }),
        old(store)@.wf(),
        final(store)@.wf(),
{
    proof {
        use_type_invariant(&*store);
    }
    let at = match find(&store.vaults, &ctx.vault) {
        Some(at) => at,
        None => {
            return Err(ErrorCode::VaultNotFound);
        },
    };
    let mut vault = store.vaults[at];
    match vault.cancel(&ctx.caller, tweet_id) {
        Ok(()) => {
            let depositor = vault.depositor;
            store.pay_out(at, vault, &depositor);
            Ok(())
        },
        Err(refusal) => Err(refusal),
    }
}

/// Carries out one request, whichever of the three it is.
pub fn apply(store: &mut VaultStore, op: Operation) -> (r: Result<(), ErrorCode>)
    ensures
        r == old(store)@.outcome(op),
        final(store)@ == old(store)@.step(op),
        old(store)@.wf(),
        final(store)@.wf(),
{
    match op {
        Operation::Create { ctx, uuid, amount, event_id, matching_text } => create(
            store,
            ctx,
            uuid,
            amount,
            event_id,
            matching_text,
        ),
        Operation::PublishTweet { ctx, event_id } => publish_tweet(store, ctx, event_id),
        Operation::Cancel { ctx, event_id } => cancel(store, ctx, event_id),
    }
}

} // verus!

//! The escrow as mathematics: a state, and what each request makes of it.

use vstd::prelude::*;
use crate::error::ErrorCode;
use crate::identity::{Holder, Identity, VaultKey};
use crate::ledger::{balance_in, lemma_moved, moved, total};
use crate::request::{Create, Operation};
use crate::vault::{Vault, VaultState};

verus! {

/// All vaults and all balances. The custody account of a vault is a holder like
/// any other, so `balances` covers funds in custody too.
#[verifier::ext_equal]
pub struct State {
    pub balances: Map<Holder, nat>,
    pub vaults: Map<VaultKey, Vault>,
}

impl State {
    /// No vaults, no funds.
    pub open spec fn empty() -> State {
        State { balances: Map::empty(), vaults: Map::empty() }
    }

    /// The spendable balance of a party.
    pub open spec fn balance(self, who: Identity) -> nat {
        balance_in(self.balances, Holder::Party(who))
    }

    /// What a vault holds in custody.
    pub open spec fn custody(self, key: VaultKey) -> nat {
        balance_in(self.balances, Holder::Vault(key))
    }

    /// All funds there are, spendable or in custody.
    pub open spec fn supply(self) -> nat {
        total(self.balances)
    }

    /// Validity: the funds fit the machine; every vault is filed under its own
    /// key, was funded with a positive amount, and holds exactly that amount
    /// while active and nothing afterwards; nothing is in custody where there
    /// is no vault.
    pub open spec fn wf(self) -> bool {
        &&& self.balances.dom().finite()
        &&& self.supply() <= u64::MAX
        &&& forall|key: VaultKey| #[trigger]
            self.vaults.contains_key(key) ==> {
                &&& self.vaults[key].key() == key
                &&& self.vaults[key].amount > 0
                &&& self.custody(key) == self.vaults[key].owed()
            }
        &&& forall|key: VaultKey|
            !#[trigger] self.vaults.contains_key(key) ==> self.custody(key) == 0
    }

    /// The vault that a successful `create` files.
    pub open spec fn created(
        ctx: Create,
        uuid: u64,
        amount: u64,
        event_id: u64,
        matching_text: [u8; 256],
    ) -> Vault {
        Vault {
            depositor: ctx.depositor,
            oracle: ctx.oracle,
            amount,
            event_id,
            matching_text,
            created_at: ctx.now,
            uuid,
            state: VaultState::Active,
        }
    }

    /// How a request is answered. A `create` is refused for a zero amount,
    /// else for a key in use, else for want of funds. A release or a
    /// cancellation is refused where the vault does not exist, else as the
    /// vault itself decides.
    pub open spec fn outcome(self, op: Operation) -> Result<(), ErrorCode> {
        match op {
            Operation::Create { ctx, uuid, amount, .. } => {
                if amount == 0 {
                    Err(ErrorCode::InvalidAmount)
                } else if self.vaults.contains_key(op.target()) {
                    Err(ErrorCode::DuplicateVault)
                } else if self.balance(ctx.depositor) < amount {
                    Err(ErrorCode::InsufficientFunds)
                } else {
                    Ok(())
                }
            },
            Operation::PublishTweet { ctx, event_id } => {
                if !self.vaults.contains_key(ctx.vault) {
                    Err(ErrorCode::VaultNotFound)
                } else {
                    self.vaults[ctx.vault].release_outcome(ctx.caller, event_id)
                }
            },
            Operation::Cancel { ctx, event_id } => {
                if !self.vaults.contains_key(ctx.vault) {
                    Err(ErrorCode::VaultNotFound)
                } else {
                    self.vaults[ctx.vault].cancel_outcome(ctx.caller, event_id)
                }
            },
        }
    }

    /// The state after a terminal transition of the vault under `key`: all its
    /// custody goes to `to`, and the vault is filed in state `terminal`.
    pub open spec fn settled(self, key: VaultKey, to: Identity, terminal: VaultState) -> State {
        State {
            balances: moved(
                self.balances,
                Holder::Vault(key),
                Holder::Party(to),
                self.custody(key),
            ),
            vaults: self.vaults.insert(key, self.vaults[key].with_state(terminal)),
        }
    }

    /// The state after a request. A refused request changes nothing. A
    /// `create` moves the amount from the depositor into the custody of the
    /// new vault; a release moves all custody to the recipient; a
    /// cancellation moves it back to the depositor.
    pub open spec fn step(self, op: Operation) -> State {
        if self.outcome(op) is Err {
            self
        } else {
            match op {
                Operation::Create { ctx, uuid, amount, event_id, matching_text } => State {
                    balances: moved(
                        self.balances,
                        Holder::Party(ctx.depositor),
                        Holder::Vault(op.target()),
                        amount as nat,
                    ),
                    vaults: self.vaults.insert(
                        op.target(),
                        Self::created(ctx, uuid, amount, event_id, matching_text),
                    ),
                },
                Operation::PublishTweet { ctx, .. } => self.settled(
                    ctx.vault,
                    ctx.recipient,
                    VaultState::Released,
                ),
                Operation::Cancel { ctx, .. } => self.settled(
                    ctx.vault,
                    self.vaults[ctx.vault].depositor,
                    VaultState::Cancelled,
                ),
            }
        }
    }

    /// The state after a sequence of requests, each applied to what the ones
    /// before it left.
    pub open spec fn run(self, ops: Seq<Operation>) -> State
        decreases ops.len(),
    {
        if ops.len() == 0 {
            self
        } else {
            self.run(ops.drop_last()).step(ops.last())
        }
    }
}

/// A request leaves a valid state valid, and the supply as it was.
pub proof fn lemma_step(state: State, op: Operation)
    requires
        state.wf(),
    ensures
        state.step(op).wf(),
        state.step(op).supply() == state.supply(),
{
    let next = state.step(op);
    if state.outcome(op) is Ok {
        let key = op.target();
        match op {
            Operation::Create { ctx, uuid, amount, event_id, matching_text } => {
                let from = Holder::Party(ctx.depositor);
                let to = Holder::Vault(key);
                lemma_moved(state.balances, from, to, amount as nat);
                assert forall|other: VaultKey| other != key implies next.custody(other)
                    == state.custody(other) by {
                    assert(Holder::Vault(other) != to);
                }
            },
            Operation::PublishTweet { ctx, .. } => {
                lemma_settled(state, key, ctx.recipient, VaultState::Released);
            },
            Operation::Cancel { ctx, .. } => {
                lemma_settled(state, key, state.vaults[key].depositor, VaultState::Cancelled);
            },
        }
    }
}

/// A terminal transition of an active vault leaves a valid state valid, and
/// the supply as it was.
pub proof fn lemma_settled(state: State, key: VaultKey, to: Identity, terminal: VaultState)
    requires
        state.wf(),
        state.vaults.contains_key(key),
        state.vaults[key].state == VaultState::Active,
        terminal != VaultState::Active,
    ensures
        state.settled(key, to, terminal).wf(),
        state.settled(key, to, terminal).supply() == state.supply(),
        state.settled(key, to, terminal).custody(key) == 0,
        state.settled(key, to, terminal).balance(to) == state.balance(to) + state.custody(key),
{
    let next = state.settled(key, to, terminal);
    let from = Holder::Vault(key);
    lemma_moved(state.balances, from, Holder::Party(to), state.custody(key));
    assert forall|other: VaultKey| other != key implies next.custody(other) == state.custody(
        other,
    ) by {
        assert(Holder::Vault(other) != from);
    }
}

} // verus!

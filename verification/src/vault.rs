//! One escrow record, the predicates that guard it, and its single transition
//! into a terminal state.

use vstd::prelude::*;
use crate::error::ErrorCode;
use crate::identity::{Identity, VaultKey};

verus! {

/// Lifecycle of a vault. `Released` and `Cancelled` are terminal.
#[derive(Clone, Copy, Debug, PartialEq, Eq, Structural)]
pub enum VaultState {
    Active,
    Released,
    Cancelled,
}

/// One escrow agreement.
#[derive(Clone, Copy, Debug, PartialEq, Eq)]
pub struct Vault {
    /// The account that funded the vault and may cancel it.
    pub depositor: Identity,
    /// The account that may confirm the event and release the funds.
    pub oracle: Identity,
    /// The amount deposited.
    pub amount: u64,
    /// The external event the vault waits for.
    pub event_id: u64,
    /// Content the event is expected to match; stored, never interpreted.
    pub matching_text: [u8; 256],
    /// When the vault was created.
    pub created_at: i64,
    /// Tells apart the vaults of one depositor.
    pub uuid: u64,
    pub state: VaultState,
}

/// What a request to settle `vault` is answered with: the state is looked at
/// first, then the caller, then the event.
pub open spec fn settlement(vault: Vault, authorized: bool, event_id: u64) -> Result<
    (),
    ErrorCode,
> {
    if vault.state != VaultState::Active {
        Err(ErrorCode::VaultNotActive)
    } else if !authorized {
        Err(ErrorCode::Unauthorized)
    } else if event_id != vault.event_id {
        Err(ErrorCode::EventMismatch)
    } else {
        Ok(())
    }
}

impl Vault {
    /// The key under which a store files this vault.
    pub open spec fn key(self) -> VaultKey {
        VaultKey { depositor: self.depositor, uuid: self.uuid }
    }

    /// This vault in another state, all else equal.
    pub open spec fn with_state(self, state: VaultState) -> Vault {
        Vault { state, ..self }
    }

    /// What the vault holds in custody if it was funded with `amount`: all of
    /// it while active, nothing once settled.
    pub open spec fn owed(self) -> nat {
        if self.state == VaultState::Active {
            self.amount as nat
        } else {
            0
        }
    }

    pub open spec fn release_outcome(self, caller: Identity, event_id: u64) -> Result<
        (),
        ErrorCode,
    > {
        settlement(self, caller == self.oracle, event_id)
    }

    pub open spec fn cancel_outcome(self, caller: Identity, event_id: u64) -> Result<
        (),
        ErrorCode,
    > {
        settlement(self, caller == self.depositor, event_id)
    }

    /// A fresh, active vault.
    pub fn open(
        depositor: Identity,
        oracle: Identity,
        uuid: u64,
        amount: u64,
        event_id: u64,
        matching_text: [u8; 256],
        created_at: i64,
    ) -> (vault: Vault)
        ensures
            vault == (Vault {
                depositor,
                oracle,
                amount,
                event_id,
                matching_text,
                created_at,
                uuid,
                state: VaultState::Active,
            }),
    {
        Vault {
            depositor,
            oracle,
            amount,
            event_id,
            matching_text,
            created_at,
            uuid,
            state: VaultState::Active,
        }
    }

    pub fn vault_key(&self) -> (key: VaultKey)
        ensures
            key == self.key(),
    {
        VaultKey { depositor: self.depositor, uuid: self.uuid }
    }

    pub fn is_active(&self) -> (active: bool)
        ensures
            active == (self.state == VaultState::Active),
    {
        self.state == VaultState::Active
    }

    /// The one terminal transition. `authorized` is the verdict of the identity
    /// guard that belongs to the path taken, `terminal` the state to end in.
    fn settle(&mut self, authorized: bool, event_id: u64, terminal: VaultState) -> (r: Result<
        (),
        ErrorCode,
    >)
        ensures
            r == settlement(*old(self), authorized, event_id),
            r is Ok ==> *final(self) == old(self).with_state(terminal),
            r is Err ==> *final(self) == *old(self),
    {
        if !self.is_active() {
            return Err(ErrorCode::VaultNotActive);
        }
        if !authorized {
            return Err(ErrorCode::Unauthorized);
        }
        if !event_matches(event_id, self) {
            return Err(ErrorCode::EventMismatch);
        }
        self.state = terminal;
        Ok(())
    }

    /// The oracle confirms the event: the vault becomes `Released`.
    pub fn release(&mut self, caller: &Identity, event_id: u64) -> (r: Result<(), ErrorCode>)
        ensures
            r == old(self).release_outcome(*caller, event_id),
            r is Ok ==> *final(self) == old(self).with_state(VaultState::Released),
            r is Err ==> *final(self) == *old(self),
    {
        let authorized = is_oracle(caller, self);
        self.settle(authorized, event_id, VaultState::Released)
    }

    /// The depositor withdraws from the agreement: the vault becomes
    /// `Cancelled`.
    pub fn cancel(&mut self, caller: &Identity, event_id: u64) -> (r: Result<(), ErrorCode>)
        ensures
            r == old(self).cancel_outcome(*caller, event_id),
            r is Ok ==> *final(self) == old(self).with_state(VaultState::Cancelled),
            r is Err ==> *final(self) == *old(self),
    {
        let authorized = is_depositor(caller, self);
        self.settle(authorized, event_id, VaultState::Cancelled)
    }
}

/// Whether `caller` is the oracle that `vault` names.
pub fn is_oracle(caller: &Identity, vault: &Vault) -> (r: bool)
    ensures
        r == (*caller == vault.oracle),
{
    *caller == vault.oracle
}

/// Whether `caller` is the depositor of `vault`.
pub fn is_depositor(caller: &Identity, vault: &Vault) -> (r: bool)
    ensures
        r == (*caller == vault.depositor),
{
    *caller == vault.depositor
}

/// Whether `provided_id` is the event that `vault` waits for.
pub fn event_matches(provided_id: u64, vault: &Vault) -> (r: bool)
    ensures
        r == (provided_id == vault.event_id),
{
    provided_id == vault.event_id
}

} // verus!

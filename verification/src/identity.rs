//! Who takes part in an escrow, and who can hold funds.

use vstd::prelude::*;
use vstd::std_specs::cmp::PartialEqSpecImpl;

verus! {

/// An account identity: 32 opaque bytes, already authenticated by the host.
#[derive(Clone, Copy, Debug)]
pub struct Identity {
    pub bytes: [u8; 32],
}

impl Identity {
    pub fn new(bytes: [u8; 32]) -> (id: Identity)
        ensures
            id.bytes == bytes,
    {
        Identity { bytes }
    }

    pub fn to_bytes(&self) -> (bytes: [u8; 32])
        ensures
            bytes == self.bytes,
    {
        self.bytes
    }
}

impl PartialEq for Identity {
    fn eq(&self, other: &Self) -> (same: bool) {
        let mut i: usize = 0;
        while i < 32
            invariant
                i <= 32,
                forall|j: int| 0 <= j < i ==> self.bytes[j] == other.bytes[j],
            decreases 32 - i,
        {
            if self.bytes[i] != other.bytes[i] {
                return false;
            }
            i += 1;
        }
        assert(self.bytes =~= other.bytes);
        true
    }
}

impl Eq for Identity {

}

impl PartialEqSpecImpl for Identity {
    open spec fn obeys_eq_spec() -> bool {
        true
    }

    open spec fn eq_spec(&self, other: &Self) -> bool {
        *self == *other
    }
}

/// Names one vault: the depositor who opened it and the number the depositor
/// chose for it.
#[derive(Clone, Copy, Debug)]
pub struct VaultKey {
    pub depositor: Identity,
    pub uuid: u64,
}

impl VaultKey {
    pub fn new(depositor: Identity, uuid: u64) -> (key: VaultKey)
        ensures
            key == (VaultKey { depositor, uuid }),
    {
        VaultKey { depositor, uuid }
    }
}

impl PartialEq for VaultKey {
    fn eq(&self, other: &Self) -> (same: bool) {
        self.uuid == other.uuid && self.depositor == other.depositor
    }
}

impl Eq for VaultKey {

}

impl PartialEqSpecImpl for VaultKey {
    open spec fn obeys_eq_spec() -> bool {
        true
    }

    open spec fn eq_spec(&self, other: &Self) -> bool {
        *self == *other
    }
}

/// A place where funds rest: the spendable account of a party, or the custody
/// account of a vault. The two never coincide.
#[derive(Clone, Copy, Debug)]
pub enum Holder {
    Party(Identity),
    Vault(VaultKey),
}

impl PartialEq for Holder {
    fn eq(&self, other: &Self) -> (same: bool) {
        match (self, other) {
            (Holder::Party(a), Holder::Party(b)) => *a == *b,
            (Holder::Vault(a), Holder::Vault(b)) => *a == *b,
            _ => false,
        }
    }
}

impl Eq for Holder {

}

impl PartialEqSpecImpl for Holder {
    open spec fn obeys_eq_spec() -> bool {
        true
    }

    open spec fn eq_spec(&self, other: &Self) -> bool {
        *self == *other
    }
}

} // verus!

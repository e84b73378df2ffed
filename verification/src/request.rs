//! What a client hands in with each operation.

use vstd::prelude::*;
use crate::identity::{Identity, VaultKey};

verus! {

/// The accounts of a `create`: the caller, who funds the vault, the oracle the
/// caller names, and the host's clock.
#[derive(Clone, Copy, Debug)]
pub struct Create {
    /// The authenticated caller and source of the funds.
    pub depositor: Identity,
    /// Any identity, known to exist or not.
    pub oracle: Identity,
    /// The current time, stored as the vault's creation time.
    pub now: i64,
}

/// The accounts of a release.
#[derive(Clone, Copy, Debug)]
pub struct PublishTweet {
    /// The authenticated caller, who claims to be the vault's oracle.
    pub caller: Identity,
    /// Where the funds go; named only now.
    pub recipient: Identity,
    /// The vault to release.
    pub vault: VaultKey,
}

/// The accounts of a cancellation.
#[derive(Clone, Copy, Debug)]
pub struct Cancel {
    /// The authenticated caller, who claims to be the vault's depositor.
    pub caller: Identity,
    /// The vault to cancel.
    pub vault: VaultKey,
}

/// One request to the store, with all its arguments.
#[derive(Clone, Copy, Debug)]
#[allow(inconsistent_fields)]
pub enum Operation {
    Create { ctx: Create, uuid: u64, amount: u64, event_id: u64, matching_text: [u8; 256] },
    PublishTweet { ctx: PublishTweet, event_id: u64 },
    Cancel { ctx: Cancel, event_id: u64 },
}

impl Operation {
    /// The vault that the request is about.
    pub open spec fn target(self) -> VaultKey {
        match self {
            Operation::Create { ctx, uuid, .. } => VaultKey { depositor: ctx.depositor, uuid },
            Operation::PublishTweet { ctx, .. } => ctx.vault,
            Operation::Cancel { ctx, .. } => ctx.vault,
        }
    }

    /// The party whose spendable balance the request touches: it pays on
    /// `create` and is paid on release and on cancellation.
    pub open spec fn party(self) -> Identity {
        match self {
            Operation::Create { ctx, .. } => ctx.depositor,
            Operation::PublishTweet { ctx, .. } => ctx.recipient,
            Operation::Cancel { ctx, .. } => ctx.vault.depositor,
        }
    }

    /// The request asks for a terminal transition: a release or a cancellation.
    pub open spec fn settles(self) -> bool {
        !(self is Create)
    }
}

} // verus!

//! Why an operation was refused.

use vstd::prelude::*;

verus! {

/// Every refusal is final for the request that caused it and leaves the store
/// as it was.
#[derive(Clone, Copy, Debug, PartialEq, Eq, Structural)]
pub enum ErrorCode {
    /// The caller is not the identity that the vault names for this operation.
    Unauthorized,
    /// The event supplied is not the event the vault waits for.
    EventMismatch,
    /// The vault was released or cancelled before.
    VaultNotActive,
    /// No vault exists under the given key.
    VaultNotFound,
    /// The depositor has used this uuid before.
    DuplicateVault,
    /// The depositor's spendable balance is below the amount.
    InsufficientFunds,
    /// The amount is zero.
    InvalidAmount,
}

} // verus!

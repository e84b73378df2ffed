//! Conditional escrow: a depositor locks funds in a vault until a designated
//! oracle confirms an external event, or until the depositor cancels.
//!
//! Every operation is an executable function whose contract equates its effect
//! with a step of the mathematical model in [`model`]; [`laws`] holds what
//! follows for every sequence of operations.

pub mod address;
pub mod error;
pub mod identity;
pub mod instruction;
pub mod laws;
pub mod ledger;
pub mod model;
pub mod request;
pub mod store;
pub mod table;
pub mod vault;

pub use address::{decimal_digits, vault_address, vault_seeds};
pub use error::ErrorCode;
pub use identity::{Holder, Identity, VaultKey};
pub use instruction::{funding_instruction, AccountMeta, Instruction};
pub use ledger::Ledger;
pub use model::State;
pub use request::{Cancel, Create, Operation, PublishTweet};
pub use store::{apply, cancel, create, publish_tweet, VaultStore};
pub use vault::{event_matches, is_depositor, is_oracle, Vault, VaultState};

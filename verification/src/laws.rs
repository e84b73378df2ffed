//! What holds of the escrow whatever is asked of it, proved over the model that
//! the operations of the store are bound to.

use vstd::prelude::*;
use crate::address::{lemma_decimal_value, seeds_of};
use crate::error::ErrorCode;
use crate::identity::{Holder, VaultKey};
use crate::ledger::{balance_in, lemma_moved};
use crate::model::{lemma_step, State};
use crate::request::{Cancel, Operation, PublishTweet};
use crate::vault::VaultState;

verus! {

/// A refused request leaves the state as it was.
pub proof fn refusal_changes_nothing(state: State, op: Operation)
    requires
        state.outcome(op) is Err,
    ensures
        state.step(op) == state,
{
}

/// Conservation: whatever requests are made, in whatever order, and whether
/// they succeed or not, the funds in spendable balances and in custody
/// together stay what they were. Each state on the way is valid, so every
/// vault on the way holds its amount while active and nothing afterwards.
pub proof fn conservation(state: State, ops: Seq<Operation>)
    requires
        state.wf(),
    ensures
        state.run(ops).wf(),
        state.run(ops).supply() == state.supply(),
    decreases ops.len(),
{
    if ops.len() > 0 {
        conservation(state, ops.drop_last());
        lemma_step(state.run(ops.drop_last()), ops.last());
    }
}

/// One request moves funds between the custody of its vault and one party
/// only: the depositor on `create` and on cancellation, the recipient on
/// release. What leaves the one arrives at the other, and every other holder
/// keeps what it had.
pub proof fn funds_move_between_two(state: State, op: Operation)
    requires
        state.wf(),
    ensures
        state.step(op).custody(op.target()) + state.step(op).balance(op.party())
            == state.custody(op.target()) + state.balance(op.party()),
        forall|other: Holder|
            other != Holder::Vault(op.target()) && other != Holder::Party(op.party())
                ==> balance_in(state.step(op).balances, other) == balance_in(
                state.balances,
                other,
            ),
{
    if state.outcome(op) is Ok {
        let custody = Holder::Vault(op.target());
        let party = Holder::Party(op.party());
        match op {
            Operation::Create { amount, .. } => {
                lemma_moved(state.balances, party, custody, amount as nat);
            },
            Operation::PublishTweet { .. } => {
                lemma_moved(state.balances, custody, party, state.custody(op.target()));
            },
            Operation::Cancel { .. } => {
                lemma_moved(state.balances, custody, party, state.custody(op.target()));
            },
        }
    }
}

/// No request removes a vault or changes one that has left the active state.
pub proof fn terminal_is_final(state: State, op: Operation, key: VaultKey)
    requires
        state.vaults.contains_key(key),
        state.vaults[key].state != VaultState::Active,
    ensures
        state.step(op).vaults.contains_key(key),
        state.step(op).vaults[key] == state.vaults[key],
{
}

/// The same over any sequence of requests.
pub proof fn terminal_stays_final(state: State, ops: Seq<Operation>, key: VaultKey)
    requires
        state.vaults.contains_key(key),
        state.vaults[key].state != VaultState::Active,
    ensures
        state.run(ops).vaults.contains_key(key),
        state.run(ops).vaults[key] == state.vaults[key],
    decreases ops.len(),
{
    if ops.len() > 0 {
        terminal_stays_final(state, ops.drop_last(), key);
        terminal_is_final(state.run(ops.drop_last()), ops.last(), key);
    }
}

/// Single transition: once a release or a cancellation of a vault has
/// succeeded, every later release or cancellation of that vault is refused
/// with `VaultNotActive`, whoever asks, with whatever event, and whatever
/// else was asked of the store in between.
pub proof fn single_transition(
    state: State,
    first: Operation,
    between: Seq<Operation>,
    second: Operation,
)
    requires
        first.settles(),
        second.settles(),
        first.target() == second.target(),
        state.outcome(first) is Ok,
    ensures
        state.step(first).run(between).outcome(second) == Err::<(), ErrorCode>(
            ErrorCode::VaultNotActive,
        ),
        state.step(first).run(between).step(second) == state.step(first).run(between),
{
    terminal_stays_final(state.step(first), between, first.target());
}

/// Authorization: a release of an active vault by anyone but its oracle is
/// refused with `Unauthorized`, whether or not the event supplied is the right
/// one, and changes nothing.
pub proof fn release_needs_the_oracle(state: State, ctx: PublishTweet, event_id: u64)
    requires
        state.vaults.contains_key(ctx.vault),
        state.vaults[ctx.vault].state == VaultState::Active,
        ctx.caller != state.vaults[ctx.vault].oracle,
    ensures
        state.outcome(Operation::PublishTweet { ctx, event_id }) == Err::<(), ErrorCode>(
            ErrorCode::Unauthorized,
        ),
        state.step(Operation::PublishTweet { ctx, event_id }) == state,
{
}

/// Event binding: a release of an active vault by its oracle, for another
/// event than the one the vault waits for, is refused with `EventMismatch`
/// and changes nothing.
pub proof fn release_needs_the_event(state: State, ctx: PublishTweet, event_id: u64)
    requires
        state.vaults.contains_key(ctx.vault),
        state.vaults[ctx.vault].state == VaultState::Active,
        ctx.caller == state.vaults[ctx.vault].oracle,
        event_id != state.vaults[ctx.vault].event_id,
    ensures
        state.outcome(Operation::PublishTweet { ctx, event_id }) == Err::<(), ErrorCode>(
            ErrorCode::EventMismatch,
        ),
        state.step(Operation::PublishTweet { ctx, event_id }) == state,
{
}

/// Cancel symmetry: a cancellation of an active vault by anyone but its
/// depositor, the oracle included, is refused with `Unauthorized` and changes
/// nothing.
pub proof fn cancel_needs_the_depositor(state: State, ctx: Cancel, event_id: u64)
    requires
        state.vaults.contains_key(ctx.vault),
        state.vaults[ctx.vault].state == VaultState::Active,
        ctx.caller != state.vaults[ctx.vault].depositor,
    ensures
        state.outcome(Operation::Cancel { ctx, event_id }) == Err::<(), ErrorCode>(
            ErrorCode::Unauthorized,
        ),
        state.step(Operation::Cancel { ctx, event_id }) == state,
{
}

/// A `create` that succeeds files an active vault with the fields given,
/// takes the amount from the depositor and puts it into the custody of the
/// vault.
pub proof fn creation_escrows_the_amount(state: State, op: Operation)
    requires
        state.wf(),
        op is Create,
        state.outcome(op) is Ok,
    ensures
        !state.vaults.contains_key(op.target()),
        state.step(op).vaults.contains_key(op.target()),
        state.step(op).vaults[op.target()].state == VaultState::Active,
        state.step(op).vaults[op.target()].key() == op.target(),
        state.step(op).vaults[op.target()].amount == op->amount,
        state.step(op).custody(op.target()) == op->amount,
        state.step(op).balance(op.party()) == state.balance(op.party()) - op->amount,
{
    lemma_step(state, op);
    funds_move_between_two(state, op);
}

/// A release pays the recipient all that the vault held, and a cancellation
/// pays it to the depositor; the vault is left empty and in its terminal
/// state.
pub proof fn settlement_pays_in_full(state: State, op: Operation)
    requires
        state.wf(),
        op.settles(),
        state.outcome(op) is Ok,
    ensures
        state.step(op).custody(op.target()) == 0,
        state.step(op).balance(op.party()) == state.balance(op.party()) + state.vaults[op.target()].amount,
        state.step(op).vaults[op.target()].state == (if op is Cancel {
            VaultState::Cancelled
        } else {
            VaultState::Released
        }),
        op is Cancel ==> op.party() == state.vaults[op.target()].depositor,
{
    lemma_step(state, op);
    funds_move_between_two(state, op);
}

/// Vaults that share their seeds are one vault: the seeds of an address tell
/// depositor and uuid apart.
pub proof fn seeds_tell_vaults_apart(one: VaultKey, other: VaultKey)
    requires
        seeds_of(one) == seeds_of(other),
    ensures
        one == other,
{
    assert(seeds_of(one)[1] == seeds_of(other)[1]);
    assert(one.depositor.bytes =~= other.depositor.bytes);
    assert(seeds_of(one)[2] == seeds_of(other)[2]);
    lemma_decimal_value(one.uuid as nat);
    lemma_decimal_value(other.uuid as nat);
}

} // verus!

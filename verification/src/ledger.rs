//! Balances: who holds how much. Funds move between holders and are neither
//! made nor lost on the way.

use vstd::prelude::*;
use crate::identity::Holder;
use crate::table::{as_map, distinct_keys, has_key};
use crate::table::{lemma_as_map_at, lemma_as_map_keys, lemma_as_map_push, lemma_as_map_update};

verus! {

/// The sum of all balances of a finite book.
pub open spec fn total(book: Map<Holder, nat>) -> nat
    decreases book.dom().len(),
    when book.dom().finite()
{
    if book.dom().len() == 0 {
        0
    } else {
        let holder = book.dom().choose();
        book[holder] + total(book.remove(holder))
    }
}

/// What `holder` has in `book`; nothing where the book does not list it.
pub open spec fn balance_in(book: Map<Holder, nat>, holder: Holder) -> nat {
    if book.contains_key(holder) {
        book[holder]
    } else {
        0
    }
}

/// `book` after `amount` has gone from `from` to `to`. Moving nothing, or
/// moving to oneself, changes nothing.
pub open spec fn moved(book: Map<Holder, nat>, from: Holder, to: Holder, amount: nat) -> Map<
    Holder,
    nat,
> {
    if amount == 0 || from == to {
        book
    } else {
        book.insert(from, (balance_in(book, from) - amount) as nat).insert(
            to,
            balance_in(book, to) + amount,
        )
    }
}

/// The sum can be taken apart at any holder, not only at the one `total`
/// happens to pick.
pub proof fn lemma_total_remove(book: Map<Holder, nat>, holder: Holder)
    requires
        book.dom().finite(),
        book.contains_key(holder),
    ensures
        total(book) == book[holder] + total(book.remove(holder)),
    decreases book.dom().len(),
{
    let picked = book.dom().choose();
    if picked != holder {
        let rest = book.remove(picked);
        lemma_total_remove(rest, holder);
        lemma_total_remove(book.remove(holder), picked);
        assert(rest.remove(holder) == book.remove(holder).remove(picked));
    }
}

/// A book without `holder` grows by `balance` when `holder` enters with it.
pub proof fn lemma_total_insert(book: Map<Holder, nat>, holder: Holder, balance: nat)
    requires
        book.dom().finite(),
    ensures
        total(book.insert(holder, balance)) + balance_in(book, holder) == total(book) + balance,
{
    let after = book.insert(holder, balance);
    lemma_total_remove(after, holder);
    assert(after.remove(holder) == book.remove(holder));
    if book.contains_key(holder) {
        lemma_total_remove(book, holder);
    } else {
        assert(book.remove(holder) == book);
    }
}

/// No holder has more than the whole book.
pub proof fn lemma_balance_within_total(book: Map<Holder, nat>, holder: Holder)
    requires
        book.dom().finite(),
    ensures
        balance_in(book, holder) <= total(book),
{
    if book.contains_key(holder) {
        lemma_total_remove(book, holder);
    }
}

/// Two different holders together have no more than the whole book.
pub proof fn lemma_pair_within_total(book: Map<Holder, nat>, one: Holder, other: Holder)
    requires
        book.dom().finite(),
        one != other,
    ensures
        balance_in(book, one) + balance_in(book, other) <= total(book),
{
    if book.contains_key(one) {
        lemma_total_remove(book, one);
        lemma_balance_within_total(book.remove(one), other);
    } else {
        lemma_balance_within_total(book, other);
    }
}

/// Moving funds that the sender has keeps the sum, and changes the balances of
/// sender and receiver only.
pub proof fn lemma_moved(book: Map<Holder, nat>, from: Holder, to: Holder, amount: nat)
    requires
        book.dom().finite(),
        amount <= balance_in(book, from),
    ensures
        moved(book, from, to, amount).dom().finite(),
        total(moved(book, from, to, amount)) == total(book),
        forall|holder: Holder|
            holder != from && holder != to ==> balance_in(moved(book, from, to, amount), holder)
                == balance_in(book, holder),
        from != to ==> balance_in(moved(book, from, to, amount), from) == balance_in(book, from)
            - amount,
        from != to ==> balance_in(moved(book, from, to, amount), to) == balance_in(book, to)
            + amount,
        from == to ==> balance_in(moved(book, from, to, amount), from) == balance_in(book, from),
{
    if amount != 0 && from != to {
        let left = (balance_in(book, from) - amount) as nat;
        let debited = book.insert(from, left);
        lemma_total_insert(book, from, left);
        lemma_total_insert(debited, to, balance_in(book, to) + amount);
    }
}

/// A book is sound where it lists finitely many holders and its sum fits in
/// 64 bits, so that no single balance can overflow.
pub open spec fn sound(book: Map<Holder, nat>) -> bool {
    &&& book.dom().finite()
    &&& total(book) <= u64::MAX
}

/// One line of the book.
struct Entry {
    holder: Holder,
    balance: u64,
}

spec fn pairs_of(entries: Seq<Entry>) -> Seq<(Holder, nat)> {
    entries.map_values(|e: Entry| (e.holder, e.balance as nat))
}

/// The line that lists `holder`, if there is one.
fn find(entries: &Vec<Entry>, holder: &Holder) -> (at: Option<usize>)
    requires
        distinct_keys(pairs_of(entries@)),
    ensures
        match at {
            Some(i) => {
                &&& i < entries.len()
                &&& entries[i as int].holder == *holder
                &&& as_map(pairs_of(entries@)).contains_key(*holder)
                &&& as_map(pairs_of(entries@))[*holder] == entries[i as int].balance
            },
            None => !as_map(pairs_of(entries@)).contains_key(*holder),
        },
{
    proof {
        lemma_as_map_keys(pairs_of(entries@));
    }
    let mut i: usize = 0;
    while i < entries.len()
        invariant
            distinct_keys(pairs_of(entries@)),
            i <= entries.len(),
            forall|j: int| 0 <= j < i ==> entries[j].holder != *holder,
        decreases entries.len() - i,
    {
        if entries[i].holder == *holder {
            proof {
                lemma_as_map_at(pairs_of(entries@), i as int);
            }
            return Some(i);
        }
        i += 1;
    }
    proof {
        let pairs = pairs_of(entries@);
        if has_key(pairs, *holder) {
            let j = choose|j: int| 0 <= j < pairs.len() && #[trigger] pairs[j].0 == *holder;
            assert(entries[j].holder == *holder);
        }
    }
    None
}

/// Writes `balance` for `holder`, in the line that lists it or in a new one.
fn put(entries: &mut Vec<Entry>, holder: &Holder, balance: u64)
    requires
        distinct_keys(pairs_of(old(entries)@)),
    ensures
        distinct_keys(pairs_of(final(entries)@)),
        as_map(pairs_of(final(entries)@)) == as_map(pairs_of(old(entries)@)).insert(
            *holder,
            balance as nat,
        ),
{
    let ghost before = pairs_of(entries@);
    match find(entries, holder) {
        Some(i) => {
            entries[i] = Entry { holder: *holder, balance };
            proof {
                lemma_as_map_update(before, i as int, balance as nat);
                assert(pairs_of(entries@) == before.update(i as int, (*holder, balance as nat)));
            }
        },
        None => {
            entries.push(Entry { holder: *holder, balance });
            proof {
                lemma_as_map_keys(before);
                lemma_as_map_push(before, *holder, balance as nat);
                assert(pairs_of(entries@) == before.push((*holder, balance as nat)));
            }
        },
    }
}

/// A book of balances that is sound at all times.
pub struct Ledger {
    entries: Vec<Entry>,
    issued: u64,
}

impl Ledger {
    /// The book: each listed holder with its balance.
    pub closed spec fn view(&self) -> Map<Holder, nat> {
        as_map(pairs_of(self.entries@))
    }

    /// No holder is listed twice, and the running sum is the sum.
    #[verifier::type_invariant]
    spec fn inv(self) -> bool {
        &&& distinct_keys(pairs_of(self.entries@))
        &&& self.issued == total(self@)
    }

    /// An empty book.
    pub fn new() -> (ledger: Ledger)
        ensures
            ledger@ == Map::<Holder, nat>::empty(),
            sound(ledger@),
    {
        let ledger = Ledger { entries: Vec::new(), issued: 0 };
        assert(pairs_of(ledger.entries@) == Seq::<(Holder, nat)>::empty());
        ledger
    }

    /// What `holder` has.
    pub fn balance_of(&self, holder: &Holder) -> (balance: u64)
        ensures
            balance == balance_in(self@, *holder),
            sound(self@),
    {
        proof {
            use_type_invariant(self);
            lemma_as_map_keys(pairs_of(self.entries@));
        }
        match find(&self.entries, holder) {
            Some(i) => self.entries[i].balance,
            None => 0,
        }
    }

    /// The sum of all balances.
    pub fn issued(&self) -> (sum: u64)
        ensures
            sum == total(self@),
            sound(self@),
    {
        proof {
            use_type_invariant(self);
            lemma_as_map_keys(pairs_of(self.entries@));
        }
        self.issued
    }

    /// Brings `amount` into the book from outside, to the credit of `holder`.
    /// Refused, with the book unchanged, where the sum would no longer fit.
    pub fn mint(&mut self, holder: &Holder, amount: u64) -> (done: bool)
        ensures
            sound(old(self)@),
            sound(final(self)@),
            done == (total(old(self)@) + amount <= u64::MAX),
            done ==> final(self)@ == old(self)@.insert(
                *holder,
                (balance_in(old(self)@, *holder) + amount) as nat,
            ),
            done ==> total(final(self)@) == total(old(self)@) + amount,
            !done ==> final(self)@ == old(self)@,
    {
        proof {
            use_type_invariant(&*self);
        }
        let had = self.balance_of(holder);
        if amount > u64::MAX - self.issued {
            return false;
        }
        proof {
            lemma_balance_within_total(self@, *holder);
            lemma_total_insert(self@, *holder, (had + amount) as nat);
        }
        let mut book = Ledger::new();
        core::mem::swap(self, &mut book);
        let Ledger { mut entries, issued } = book;
        put(&mut entries, holder, had + amount);
        *self = Ledger { entries, issued: issued + amount };
        true
    }

    /// Moves `amount` from `from` to `to`, or nothing at all where `from` has
    /// less than `amount`.
    pub fn transfer(&mut self, from: &Holder, to: &Holder, amount: u64) -> (done: bool)
        ensures
            sound(old(self)@),
            sound(final(self)@),
            done == (amount <= balance_in(old(self)@, *from)),
            done ==> final(self)@ == moved(old(self)@, *from, *to, amount as nat),
            !done ==> final(self)@ == old(self)@,
            total(final(self)@) == total(old(self)@),
    {
        let available = self.balance_of(from);
        if amount > available {
            return false;
        }
        if amount == 0 || *from == *to {
            return true;
        }
        let had = self.balance_of(to);
        proof {
            use_type_invariant(&*self);
            lemma_pair_within_total(self@, *from, *to);
            lemma_moved(self@, *from, *to, amount as nat);
        }
        let mut book = Ledger::new();
        core::mem::swap(self, &mut book);
        let Ledger { mut entries, issued } = book;
        put(&mut entries, from, available - amount);
        put(&mut entries, to, had + amount);
        *self = Ledger { entries, issued };
        true
    }
}

} // verus!

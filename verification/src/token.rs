use vstd::prelude::*;
use crate::ids::Address;

verus! {

/// Failures surfaced by the native-asset ledger primitive. They propagate to
/// callers as distinct error kinds and are never swallowed.
#[derive(Clone, Copy, PartialEq, Eq, Structural, Debug)]
pub enum TokenError {
    /// The source account's balance is smaller than the requested amount.
    InsufficientBalance,
    /// Crediting the destination would push its balance past the largest
    /// representable amount.
    BalanceOverflow,
}

/// The balance an address holds in `s`; addresses without an entry hold zero.
pub open spec fn balance_in(s: Seq<(Address, i128)>, a: Address) -> int
    decreases s.len(),
{
    if s.len() == 0 {
        0
    } else if s.last().0 == a {
        s.last().1 as int
    } else {
        balance_in(s.drop_last(), a)
    }
}

/// No two entries of `s` share an address.
pub open spec fn unique_addresses(s: Seq<(Address, i128)>) -> bool {
    forall|p: int, q: int| 0 <= p < q < s.len() ==> s[p].0 != s[q].0
}

/// An in-memory model of the ledger's native-asset balances: the atomic
/// transfer primitive an account's custody is moved by. Balances are keyed by
/// address, are never negative, and change only through [`TokenLedger::mint`]
/// and [`TokenLedger::transfer`].
pub struct TokenLedger {
    entries: Vec<(Address, i128)>,
}

impl TokenLedger {
    /// Every address is keyed at most once and no balance is negative.
    pub closed spec fn wf(&self) -> bool {
        unique_addresses(self.entries@) && (forall|i: int|
            0 <= i < self.entries@.len() ==> self.entries@[i].1 >= 0)
    }

    /// The balance held by `a`; an address the ledger has no entry for
    /// holds zero.
    pub closed spec fn spec_balance(&self, a: Address) -> int {
        balance_in(self.entries@, a)
    }

    /// What a completed `transfer(from, to, amount)` call did: on success the
    /// amount moved from `from` to `to` and every other balance is unchanged;
    /// each failure names exactly the condition that caused it and leaves the
    /// ledger untouched.
    pub open spec fn transfer_outcome(
        pre: TokenLedger,
        post: TokenLedger,
        from: Address,
        to: Address,
        amount: i128,
        r: Result<(), TokenError>,
    ) -> bool {
        match r {
            Ok(()) => pre.spec_balance(from) >= amount && (from != to
                ==> pre.spec_balance(to) + amount <= i128::MAX) && (forall|a: Address|
                post.spec_balance(a) == pre.spec_balance(a) + (if a == to {
                    amount as int
                } else {
                    0
                }) - (if a == from {
                    amount as int
                } else {
                    0
                })),
            Err(TokenError::InsufficientBalance) => pre.spec_balance(from) < amount && post == pre,
            Err(TokenError::BalanceOverflow) => pre.spec_balance(from) >= amount && from != to
                && pre.spec_balance(to) + amount > i128::MAX && post == pre,
        }
    }

    /// A ledger with no entries: every address holds zero.
    pub fn new() -> (r: TokenLedger)
        ensures
            r.wf(),
            forall|a: Address| r.spec_balance(a) == 0,
    {
        TokenLedger { entries: Vec::new() }
    }

    /// The index of the entry keyed by `a`, if there is one.
    fn find(&self, a: Address) -> (r: Option<usize>)
        ensures
            match r {
                Some(i) => i < self.entries@.len() && self.entries@[i as int].0 == a,
                None => forall|j: int| 0 <= j < self.entries@.len() ==> self.entries@[j].0 != a,
            },
    {
        let n = self.entries.len();
        let mut i: usize = 0;
        while i < n
            invariant
                i <= n,
                n == self.entries@.len(),
                forall|j: int| 0 <= j < i ==> self.entries@[j].0 != a,
            decreases n - i,
        {
            if self.entries[i].0 == a {
                return Some(i);
            }
            i += 1;
        }
        None
    }

    /// The balance held by `a`.
    pub fn balance(&self, a: Address) -> (r: i128)
        requires
            self.wf(),
        ensures
            r as int == self.spec_balance(a),
            r >= 0,
    {
        match self.find(a) {
            Some(i) => {
                proof {
                    lemma_balance_at_entry(self.entries@, i as int, a);
                }
                self.entries[i].1
            },
            None => {
                proof {
                    lemma_balance_absent(self.entries@, a);
                }
                0
            },
        }
    }

    /// Overwrites (or creates) the entry for `a` with balance `v`, leaving
    /// every other balance unchanged.
    fn set_balance(&mut self, a: Address, v: i128)
        requires
            old(self).wf(),
            v >= 0,
        ensures
            final(self).wf(),
            forall|b: Address|
                final(self).spec_balance(b) == if b == a {
                    v as int
                } else {
                    old(self).spec_balance(b)
                },
    {
        let ghost s0 = self.entries@;
        match self.find(a) {
            Some(i) => {
                self.entries.set(i, (a, v));
                proof {
                    assert(self.entries@ =~= s0.update(i as int, (s0[i as int].0, v)));
                    assert forall|b: Address|
                        self.spec_balance(b) == (if b == a {
                            v as int
                        } else {
                            balance_in(s0, b)
                        }) by {
                        lemma_balance_update(s0, i as int, v, b);
                    }
                }
            },
            None => {
                self.entries.push((a, v));
                proof {
                    assert forall|b: Address|
                        self.spec_balance(b) == (if b == a {
                            v as int
                        } else {
                            balance_in(s0, b)
                        }) by {
                        lemma_balance_push(s0, a, v, b);
                    }
                }
            },
        }
    }

    /// Creates `amount` fresh units in `to`'s balance (the model's stand-in
    /// for the asset issuer's mint); fails without effect if the credit would
    /// overflow the largest representable amount.
    pub fn mint(&mut self, to: Address, amount: i128) -> (r: Result<(), TokenError>)
        requires
            old(self).wf(),
            amount >= 0,
        ensures
            final(self).wf(),
            match r {
                Ok(()) => old(self).spec_balance(to) + amount <= i128::MAX && (forall|b: Address|
                    final(self).spec_balance(b) == old(self).spec_balance(b) + (if b == to {
                        amount as int
                    } else {
                        0
                    })),
                Err(TokenError::BalanceOverflow) => old(self).spec_balance(to) + amount
                    > i128::MAX && *final(self) == *old(self),
                Err(TokenError::InsufficientBalance) => false,
            },
    {
        let bal = self.balance(to);
        if bal > i128::MAX - amount {
            return Err(TokenError::BalanceOverflow);
        }
        self.set_balance(to, bal + amount);
        Ok(())
    }

    /// The atomic native-asset transfer primitive: moves `amount` from
    /// `from`'s custody to `to`. Either the whole amount moves or the call
    /// fails with a distinct error kind and no balance changes.
    pub fn transfer(&mut self, from: Address, to: Address, amount: i128) -> (r: Result<
        (),
        TokenError,
    >)
        requires
            old(self).wf(),
            amount > 0,
        ensures
            final(self).wf(),
            TokenLedger::transfer_outcome(*old(self), *final(self), from, to, amount, r),
    {
        let from_bal = self.balance(from);
        if from_bal < amount {
            return Err(TokenError::InsufficientBalance);
        }
        if from == to {
            return Ok(());
        }
        let to_bal = self.balance(to);
        if to_bal > i128::MAX - amount {
            return Err(TokenError::BalanceOverflow);
        }
        self.set_balance(from, from_bal - amount);
        self.set_balance(to, to_bal + amount);
        Ok(())
    }
}

/// If `a` is keyed at entry `i` of a duplicate-free table, its balance is
/// that entry's.
proof fn lemma_balance_at_entry(s: Seq<(Address, i128)>, i: int, a: Address)
    requires
        unique_addresses(s),
        0 <= i < s.len(),
        s[i].0 == a,
    ensures
        balance_in(s, a) == s[i].1 as int,
    decreases s.len(),
{
    if i == s.len() - 1 {
        assert(s.last().0 == a);
    } else {
        assert(s.last().0 != a);
        lemma_balance_at_entry(s.drop_last(), i, a);
    }
}

/// An address with no entry holds zero.
proof fn lemma_balance_absent(s: Seq<(Address, i128)>, a: Address)
    requires
        forall|j: int| 0 <= j < s.len() ==> s[j].0 != a,
    ensures
        balance_in(s, a) == 0,
    decreases s.len(),
{
    if s.len() > 0 {
        lemma_balance_absent(s.drop_last(), a);
    }
}

/// Overwriting entry `i`'s balance in a duplicate-free table changes exactly
/// that entry's address.
proof fn lemma_balance_update(s: Seq<(Address, i128)>, i: int, v: i128, b: Address)
    requires
        unique_addresses(s),
        0 <= i < s.len(),
    ensures
        balance_in(s.update(i, (s[i].0, v)), b) == if b == s[i].0 {
            v as int
        } else {
            balance_in(s, b)
        },
    decreases s.len(),
{
    let s2 = s.update(i, (s[i].0, v));
    if i == s.len() - 1 {
        assert(s2.drop_last() =~= s.drop_last());
    } else {
        assert(s2.drop_last() =~= s.drop_last().update(i, (s[i].0, v)));
        assert(s2.last() == s.last());
        lemma_balance_update(s.drop_last(), i, v, b);
    }
}

/// Appending an entry for an unkeyed address sets exactly that address's
/// balance.
proof fn lemma_balance_push(s: Seq<(Address, i128)>, a: Address, v: i128, b: Address)
    ensures
        balance_in(s.push((a, v)), b) == if b == a {
            v as int
        } else {
            balance_in(s, b)
        },
{
    assert(s.push((a, v)).drop_last() =~= s);
    assert(s.push((a, v)).last() == (a, v));
}

} // verus!

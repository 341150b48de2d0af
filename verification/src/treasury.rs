//! An in-memory model of the balances the execution environment holds for the
//! contract: one non-negative amount per token identifier.  The environment
//! alone mutates balances — it credits deposits and carries out the transfer
//! instructions the contract hands back — and it never lets an outgoing
//! transfer exceed the current holding.

use vstd::prelude::*;

use crate::types::{TokenId, Transfer};

verus! {

/// One holding: a token and the amount of it the contract owns.
#[derive(Clone, Copy, Debug, PartialEq, Eq, Structural)]
pub struct BalanceEntry {
    pub token: TokenId,
    pub amount: u128,
}

/// The contract's holdings.  Its contract is a total mapping: `balance_of`
/// yields the held amount per token, or 0 when none was ever deposited.
pub struct Treasury {
    entries: Vec<BalanceEntry>,
}

impl Treasury {
    /// Holdings name pairwise distinct tokens.
    #[verifier::type_invariant]
    spec fn inv(self) -> bool {
        forall|i: int, j: int|
            0 <= i < self.entries@.len() && 0 <= j < self.entries@.len() && i != j
                ==> #[trigger] self.entries@[i].token != #[trigger] self.entries@[j].token
    }

    /// Whether some holding names `token`.
    pub closed spec fn holds(self, token: TokenId) -> bool {
        exists|i: int|
            0 <= i < self.entries@.len() && #[trigger] self.entries@[i].token == token
    }

    /// The index of the holding that names `token`, when one exists.
    closed spec fn index_of(self, token: TokenId) -> int {
        choose|i: int|
            0 <= i < self.entries@.len() && #[trigger] self.entries@[i].token == token
    }

    /// The amount of `token` the treasury holds; 0 when none was ever deposited.
    pub closed spec fn balance_of(self, token: TokenId) -> u128 {
        if self.holds(token) {
            self.entries@[self.index_of(token)].amount
        } else {
            0
        }
    }

    /// The holding at a given index determines the balance of its token.
    proof fn lemma_found(self, token: TokenId, i: int)
        requires
            self.inv(),
            0 <= i < self.entries@.len(),
            self.entries@[i].token == token,
        ensures
            self.holds(token),
            self.balance_of(token) == self.entries@[i].amount,
    {
        assert(self.holds(token));
        let j = self.index_of(token);
        assert(0 <= j < self.entries@.len() && self.entries@[j].token == token);
        assert(j == i);
    }

    /// A token no holding names has balance 0.
    proof fn lemma_absent(self, token: TokenId)
        requires
            forall|i: int|
                0 <= i < self.entries@.len() ==> #[trigger] self.entries@[i].token != token,
        ensures
            !self.holds(token),
            self.balance_of(token) == 0,
    {
    }

    /// An empty treasury: every balance is 0.
    pub fn new() -> (r: Self)
        ensures
            forall|t: TokenId| #[trigger] r.balance_of(t) == 0,
    {
        let r = Treasury { entries: Vec::new() };
        proof {
            assert forall|t: TokenId| #[trigger] r.balance_of(t) == 0 by {
                r.lemma_absent(t);
            }
        }
        r
    }

    /// Reads the held amount of `token`, defaulting to 0.
    pub fn balance(&self, token: TokenId) -> (r: u128)
        ensures
            r == self.balance_of(token),
    {
        proof {
            use_type_invariant(self);
        }
        let n = self.entries.len();
        let mut i: usize = 0;
        while i < n
            invariant
                self.inv(),
                n == self.entries@.len(),
                i <= n,
                forall|j: int| 0 <= j < i ==> #[trigger] self.entries@[j].token != token,
            decreases n - i,
        {
            let e = self.entries[i];
            if e.token == token {
                proof {
                    self.lemma_found(token, i as int);
                }
                return e.amount;
            }
            i = i + 1;
        }
        proof {
            self.lemma_absent(token);
        }
        0
    }

    /// Overwrites the held amount of `token`; every other balance is kept.
    fn set_balance(&mut self, token: TokenId, amount: u128)
        ensures
            final(self).balance_of(token) == amount,
            forall|t: TokenId|
                t != token ==> #[trigger] final(self).balance_of(t) == old(self).balance_of(t),
    {
        proof {
            use_type_invariant(&*self);
        }
        let ghost prev = *self;
        let mut entries: Vec<BalanceEntry> = Vec::new();
        std::mem::swap(&mut entries, &mut self.entries);
        let n = entries.len();
        let mut i: usize = 0;
        let mut idx: usize = n;
        while i < n
            invariant
                entries@ == prev.entries@,
                n == entries@.len(),
                i <= n,
                idx == n || (idx < i && entries@[idx as int].token == token),
                idx == n
                    ==> forall|j: int| 0 <= j < i ==> #[trigger] entries@[j].token != token,
            decreases n - i,
        {
            let e = entries[i];
            if idx == n && e.token == token {
                idx = i;
            }
            i = i + 1;
        }
        let row = BalanceEntry { token, amount };
        if idx < n {
            entries[idx] = row;
        } else {
            entries.push(row);
        }
        proof {
            assert forall|k: int| 0 <= k < prev.entries@.len() implies #[trigger] entries@[k].token
                == prev.entries@[k].token by {}
            assert(prev.inv());
            assert forall|p: int, q: int|
                0 <= p < entries@.len() && 0 <= q < entries@.len() && p != q implies #[trigger] entries@[p].token
                != #[trigger] entries@[q].token by {
                if p < prev.entries@.len() && q < prev.entries@.len() {
                    assert(prev.entries@[p].token != prev.entries@[q].token);
                }
            }
        }
        self.entries = entries;
        proof {
            let updated = *self;
            assert(updated.inv());
            if idx < n {
                updated.lemma_found(token, idx as int);
            } else {
                updated.lemma_found(token, n as int);
            }
            assert forall|t: TokenId| t != token implies #[trigger] updated.balance_of(t)
                == prev.balance_of(t) by {
                if prev.holds(t) {
                    let j = prev.index_of(t);
                    assert(prev.entries@[j].token == t);
                    prev.lemma_found(t, j);
                    assert(updated.entries@[j].token == t);
                    assert(updated.entries@[j].amount == prev.entries@[j].amount);
                    updated.lemma_found(t, j);
                } else {
                    assert forall|j: int|
                        0 <= j < prev.entries@.len() implies #[trigger] prev.entries@[j].token
                        != t by {
                        if prev.entries@[j].token == t {
                            assert(prev.holds(t));
                        }
                    }
                    prev.lemma_absent(t);
                    assert forall|j: int|
                        0 <= j < updated.entries@.len() implies #[trigger] updated.entries@[j].token
                        != t by {}
                    updated.lemma_absent(t);
                }
            }
        }
    }

    /// Credits a deposit of `amount` units of `token`, as the environment does
    /// when a payment arrives.
    pub fn deposit(&mut self, token: TokenId, amount: u128)
        requires
            old(self).balance_of(token) + amount <= u128::MAX,
        ensures
            final(self).balance_of(token) == old(self).balance_of(token) + amount,
            forall|t: TokenId|
                t != token ==> #[trigger] final(self).balance_of(t) == old(self).balance_of(t),
    {
        let held = self.balance(token);
        self.set_balance(token, held + amount);
    }

    /// Carries out an outgoing transfer instruction: the transferred amount
    /// leaves the treasury.  The environment never moves more of a token than
    /// the treasury holds.
    pub fn apply_transfer(&mut self, instruction: &Transfer)
        requires
            instruction.amount <= old(self).balance_of(instruction.token),
        ensures
            final(self).balance_of(instruction.token) == old(self).balance_of(instruction.token)
                - instruction.amount,
            forall|t: TokenId|
                t != instruction.token
                    ==> #[trigger] final(self).balance_of(t) == old(self).balance_of(t),
    {
        let held = self.balance(instruction.token);
        self.set_balance(instruction.token, held - instruction.amount);
    }
}

} // verus!

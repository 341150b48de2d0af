//! The persisted last-claim table: a mapping from (account address, token
//! identifier) to the timestamp of that account's last successful claim of
//! that token.  Keys are unique, entries are never deleted, and an absent key
//! reads as timestamp 0 (never claimed).

use vstd::prelude::*;

use crate::types::{Address, TokenId};

verus! {

/// One row of the last-claim table.
#[derive(Clone, Copy, Debug, PartialEq, Eq, Structural)]
pub struct ClaimEntry {
    pub address: Address,
    pub token: TokenId,
    pub time: u64,
}

/// The (address, token) pair a row is keyed by.
pub open spec fn key_of(e: ClaimEntry) -> (Address, TokenId) {
    (e.address, e.token)
}

/// The last-claim table.  Its contract is a total mapping: `last_of` yields
/// the recorded timestamp for a key, or 0 when the key has never been written.
pub struct LastClaimTable {
    entries: Vec<ClaimEntry>,
}

impl LastClaimTable {
    /// Rows have pairwise distinct keys.
    #[verifier::type_invariant]
    spec fn inv(self) -> bool {
        forall|i: int, j: int|
            0 <= i < self.entries@.len() && 0 <= j < self.entries@.len() && i != j
                ==> #[trigger] key_of(self.entries@[i]) != #[trigger] key_of(self.entries@[j])
    }

    /// Whether some row is keyed by (address, token).
    pub closed spec fn contains_key(self, address: Address, token: TokenId) -> bool {
        exists|i: int|
            0 <= i < self.entries@.len() && #[trigger] key_of(self.entries@[i]) == (address, token)
    }

    /// The index of the row keyed by (address, token), when one exists.
    closed spec fn index_of(self, address: Address, token: TokenId) -> int {
        choose|i: int|
            0 <= i < self.entries@.len() && #[trigger] key_of(self.entries@[i]) == (address, token)
    }

    /// The timestamp recorded for (address, token); 0 when the pair has never
    /// been written.
    pub closed spec fn last_of(self, address: Address, token: TokenId) -> u64 {
        if self.contains_key(address, token) {
            self.entries@[self.index_of(address, token)].time
        } else {
            0
        }
    }

    /// The row at a given index determines the value `last_of` yields for its key.
    proof fn lemma_found(self, address: Address, token: TokenId, i: int)
        requires
            self.inv(),
            0 <= i < self.entries@.len(),
            key_of(self.entries@[i]) == (address, token),
        ensures
            self.contains_key(address, token),
            self.last_of(address, token) == self.entries@[i].time,
    {
        assert(self.contains_key(address, token));
        let j = self.index_of(address, token);
        assert(0 <= j < self.entries@.len() && key_of(self.entries@[j]) == (address, token));
        assert(j == i);
    }

    /// A key no row carries reads as 0.
    proof fn lemma_absent(self, address: Address, token: TokenId)
        requires
            forall|i: int|
                0 <= i < self.entries@.len()
                    ==> #[trigger] key_of(self.entries@[i]) != (address, token),
        ensures
            !self.contains_key(address, token),
            self.last_of(address, token) == 0,
    {
    }

    /// An empty table: every key reads as 0.
    pub fn new() -> (r: Self)
        ensures
            forall|a: Address, t: TokenId| #[trigger] r.last_of(a, t) == 0,
    {
        let r = LastClaimTable { entries: Vec::new() };
        proof {
            assert forall|a: Address, t: TokenId| #[trigger] r.last_of(a, t) == 0 by {
                r.lemma_absent(a, t);
            }
        }
        r
    }

    /// Reads the timestamp recorded for (address, token), defaulting to 0.
    pub fn get(&self, address: Address, token: TokenId) -> (r: u64)
        ensures
            r == self.last_of(address, token),
    {
        proof {
            use_type_invariant(self);
        }
        let n = self.entries.len();
        let mut i: usize = 0;
        while i < n
            invariant
                self.inv(),
                n == self.entries@.len(),
                i <= n,
                forall|j: int|
                    0 <= j < i ==> #[trigger] key_of(self.entries@[j]) != (address, token),
            decreases n - i,
        {
            let e = self.entries[i];
            if e.address == address && e.token == token {
                proof {
                    self.lemma_found(address, token, i as int);
                }
                return e.time;
            }
            i = i + 1;
        }
        proof {
            self.lemma_absent(address, token);
        }
        0
    }

    /// Writes `time` for (address, token), creating the row on first write and
    /// overwriting it afterwards; every other key keeps its value.
    pub fn set(&mut self, address: Address, token: TokenId, time: u64)
        ensures
            final(self).last_of(address, token) == time,
            forall|a: Address, t: TokenId|
                (a, t) != (address, token)
                    ==> #[trigger] final(self).last_of(a, t) == old(self).last_of(a, t),
    {
        proof {
            use_type_invariant(&*self);
        }
        let ghost prev = *self;
        let mut entries: Vec<ClaimEntry> = Vec::new();
        std::mem::swap(&mut entries, &mut self.entries);
        let n = entries.len();
        let mut i: usize = 0;
        let mut idx: usize = n;
        while i < n
            invariant
                entries@ == prev.entries@,
                n == entries@.len(),
                i <= n,
                idx == n || (idx < i && key_of(entries@[idx as int]) == (address, token)),
                idx == n
                    ==> forall|j: int|
                        0 <= j < i ==> #[trigger] key_of(entries@[j]) != (address, token),
            decreases n - i,
        {
            let e = entries[i];
            if idx == n && e.address == address && e.token == token {
                idx = i;
            }
            i = i + 1;
        }
        let row = ClaimEntry { address, token, time };
        if idx < n {
            entries[idx] = row;
        } else {
            entries.push(row);
        }
        proof {
            // Keys are pointwise unchanged: an overwrite keeps its row's key,
            // and a pushed row carries a key no earlier row has.
            assert forall|k: int| 0 <= k < prev.entries@.len() implies #[trigger] key_of(
                entries@[k],
            ) == key_of(prev.entries@[k]) by {}
            assert(prev.inv());
            assert forall|p: int, q: int|
                0 <= p < entries@.len() && 0 <= q < entries@.len() && p != q implies #[trigger] key_of(
                entries@[p],
            ) != #[trigger] key_of(entries@[q]) by {
                if p < prev.entries@.len() && q < prev.entries@.len() {
                    assert(key_of(prev.entries@[p]) != key_of(prev.entries@[q]));
                }
            }
        }
        self.entries = entries;
        proof {
            let updated = *self;
            assert(updated.inv());
            if idx < n {
                updated.lemma_found(address, token, idx as int);
            } else {
                updated.lemma_found(address, token, n as int);
            }
            assert forall|a: Address, t: TokenId| (a, t) != (address, token) implies #[trigger] updated.last_of(
                a,
                t,
            ) == prev.last_of(a, t) by {
                if prev.contains_key(a, t) {
                    let j = prev.index_of(a, t);
                    assert(key_of(prev.entries@[j]) == (a, t));
                    prev.lemma_found(a, t, j);
                    assert(key_of(updated.entries@[j]) == (a, t));
                    assert(updated.entries@[j].time == prev.entries@[j].time);
                    updated.lemma_found(a, t, j);
                } else {
                    assert forall|j: int|
                        0 <= j < prev.entries@.len() implies #[trigger] key_of(prev.entries@[j])
                        != (a, t) by {
                        if key_of(prev.entries@[j]) == (a, t) {
                            assert(prev.contains_key(a, t));
                        }
                    }
                    prev.lemma_absent(a, t);
                    assert forall|j: int|
                        0 <= j < updated.entries@.len() implies #[trigger] key_of(
                        updated.entries@[j],
                    ) != (a, t) by {}
                    updated.lemma_absent(a, t);
                }
            }
        }
    }
}

} // verus!

//! A map from pairs of 64-bit keys to records.

use std::collections::HashMap;
use vstd::prelude::*;

verus! {

/// The 128-bit cell of the pair `(first, second)`: `first` in the upper half,
/// `second` in the lower.
pub open spec fn pair_key(first: u64, second: u64) -> u128 {
    (first * 0x1_0000_0000_0000_0000 + second) as u128
}

/// Distinct pairs have distinct cells.
pub proof fn lemma_pair_key_injective(a: u64, b: u64, c: u64, d: u64)
    ensures
        pair_key(a, b) == pair_key(c, d) <==> a == c && b == d,
{
}

fn make_key(first: u64, second: u64) -> (key: u128)
    ensures
        key == pair_key(first, second),
{
    (first as u128) * 0x1_0000_0000_0000_0000 + (second as u128)
}

/// A finite map keyed by pairs of 64-bit integers.
pub struct PairTable<V> {
    cells: HashMap<u128, V>,
}

impl<V> View for PairTable<V> {
    type V = Map<(u64, u64), V>;

    closed spec fn view(&self) -> Map<(u64, u64), V> {
        Map::new(
            |pair: (u64, u64)| self.cells@.contains_key(pair_key(pair.0, pair.1)),
            |pair: (u64, u64)| self.cells@[pair_key(pair.0, pair.1)],
        )
    }
}

impl<V: Copy> PairTable<V> {
    /// The empty table.
    pub fn new() -> (table: Self)
        ensures
            table@ == Map::<(u64, u64), V>::empty(),
    {
        let table = PairTable { cells: HashMap::new() };
        assert(table@ =~= Map::<(u64, u64), V>::empty());
        table
    }

    /// The record stored under `(first, second)`, if there is one.
    pub fn get(&self, first: u64, second: u64) -> (found: Option<V>)
        ensures
            found == (if self@.contains_key((first, second)) {
                Some(self@[(first, second)])
            } else {
                None
            }),
    {
        let key = make_key(first, second);
        match self.cells.get(&key) {
            Some(value) => Some(*value),
            None => None,
        }
    }

    /// Stores `value` under `(first, second)`, replacing what was there.
    pub fn insert(&mut self, first: u64, second: u64, value: V)
        ensures
            final(self)@ == old(self)@.insert((first, second), value),
    {
        let key = make_key(first, second);
        self.cells.insert(key, value);
        proof {
            assert forall|pair: (u64, u64)| pair != (first, second) implies pair_key(
                pair.0,
                pair.1,
            ) != key by {
                lemma_pair_key_injective(pair.0, pair.1, first, second);
            }
            assert(self@ =~= old(self)@.insert((first, second), value));
        }
    }

    /// Removes what is stored under `(first, second)`.
    pub fn remove(&mut self, first: u64, second: u64)
        ensures
            final(self)@ == old(self)@.remove((first, second)),
    {
        let key = make_key(first, second);
        self.cells.remove(&key);
        proof {
            assert forall|pair: (u64, u64)| pair != (first, second) implies pair_key(
                pair.0,
                pair.1,
            ) != key by {
                lemma_pair_key_injective(pair.0, pair.1, first, second);
            }
            assert(self@ =~= old(self)@.remove((first, second)));
        }
    }
}

} // verus!

//! References to the locks of keys that are in use.
//!
//! A key's lock lives only while a guard or a waiter refers to it, so the table holds only
//! keys that are in use.

use std::collections::HashMap;

use vstd::prelude::*;

verus! {

broadcast use vstd::std_specs::hash::group_hash_axioms;

/// References to each key's lock.
#[derive(Debug)]
pub struct KeyedLocks {
    references: HashMap<u128, u64>,
}

impl View for KeyedLocks {
    type V = Map<u128, u64>;

    closed spec fn view(&self) -> Map<u128, u64> {
        self.references@
    }
}

/// References to a key's lock.
pub open spec fn references(table: Map<u128, u64>, key: u128) -> nat {
    if table.contains_key(key) {
        table[key] as nat
    } else {
        0
    }
}

/// The table with this many references to a key's lock.
pub open spec fn with_references(table: Map<u128, u64>, key: u128, count: nat) -> Map<u128, u64> {
    if count == 0 {
        table.remove(key)
    } else {
        table.insert(key, count as u64)
    }
}

impl KeyedLocks {
    /// Every key in the table has a reference.
    pub open spec fn wf(self) -> bool {
        forall|key: u128| #[trigger] self@.contains_key(key) ==> self@[key] > 0
    }

    /// No key is in use.
    pub fn new() -> (locks: KeyedLocks)
        ensures
            locks.wf(),
            locks@ == Map::<u128, u64>::empty(),
    {
        KeyedLocks { references: HashMap::new() }
    }

    /// Refer to a key's lock, which is created on demand; tells whether it was.
    ///
    /// A guard and a waiter each refer to it once, until they leave.
    pub fn enter(&mut self, key: u128) -> (created: bool)
        requires
            old(self).wf(),
            references(old(self)@, key) < u64::MAX,
        ensures
            final(self).wf(),
            created == !old(self)@.contains_key(key),
            final(self)@ == with_references(
                old(self)@,
                key,
                references(old(self)@, key) + 1,
            ),
    {
        let count: u64 = match self.references.get(&key) {
            Some(count) => *count,
            None => 0,
        };
        self.references.insert(key, count + 1);
        count == 0
    }

    /// Drop one reference to a key's lock; the last one removes the key.
    pub fn leave(&mut self, key: u128) -> (removed: bool)
        requires
            old(self).wf(),
            old(self)@.contains_key(key),
        ensures
            final(self).wf(),
            removed == !final(self)@.contains_key(key),
            final(self)@ == with_references(
                old(self)@,
                key,
                (references(old(self)@, key) - 1) as nat,
            ),
    {
        let count: u64 = match self.references.get(&key) {
            Some(count) => *count,
            None => 1,
        };
        if count <= 1 {
            self.references.remove(&key);
            true
        } else {
            self.references.insert(key, count - 1);
            false
        }
    }

    /// Keys in use.
    pub fn len(&self) -> (len: usize)
        ensures
            len == self@.dom().len(),
    {
        self.references.len()
    }
}

/// Leaving undoes entering: a key whose every guard and waiter left has no entry, and the
/// other keys are untouched.
pub proof fn leaving_undoes_entering(table: Map<u128, u64>, key: u128)
    requires
        forall|other: u128| #[trigger] table.contains_key(other) ==> table[other] > 0,
        references(table, key) < u64::MAX,
    ensures
        ({
            let entered = with_references(table, key, references(table, key) + 1);
            &&& entered.contains_key(key)
            &&& with_references(entered, key, (references(entered, key) - 1) as nat) == table
        }),
{
    let entered = with_references(table, key, references(table, key) + 1);
    assert(with_references(entered, key, (references(entered, key) - 1) as nat) =~= table);
}

/// Keys are independent: whatever becomes of one key, every other key keeps its references.
pub proof fn other_keys_keep_their_references(
    table: Map<u128, u64>,
    key: u128,
    count: nat,
    other: u128,
)
    requires
        other != key,
    ensures
        references(with_references(table, key, count), other) == references(table, other),
{
}

} // verus!

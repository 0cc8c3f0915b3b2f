use vstd::prelude::*;

use crate::bytes32::B256;
use crate::entries::entries_map;

verus! {

/// What a load of `key` observes under the slot map `m`: the stored value, or
/// the all-zero word for a key never written in the current transaction.
pub open spec fn slot_of(m: Map<B256, B256>, key: B256) -> B256 {
    if m.contains_key(key) {
        m[key]
    } else {
        B256::zero_spec()
    }
}

/// The transaction-scoped transient key-value store: 32-byte keys to 32-byte
/// values, created empty at the start of a transaction, shared by every nested
/// call within it — re-entries into the same contract included — and wiped
/// unconditionally when the transaction finishes.
///
/// The store is held as the journal of writes the transaction performed; its
/// view is the slot map those writes describe, a later write overriding an
/// earlier one.
pub struct TransientStore {
    writes: Vec<(B256, B256)>,
}

impl View for TransientStore {
    type V = Map<B256, B256>;

    closed spec fn view(&self) -> Map<B256, B256> {
        entries_map(self.writes@)
    }
}

impl TransientStore {
    /// The store at the start of a transaction: every slot zero. A store of an
    /// earlier transaction is never carried over — the host wipes transient
    /// state at each transaction boundary.
    pub fn new() -> (r: TransientStore)
        ensures
            r@ == Map::<B256, B256>::empty(),
    {
        TransientStore { writes: Vec::new() }
    }

    /// Overwrites the slot for `key`, visible immediately to every subsequent
    /// load in this transaction, loads by nested calls included.
    pub fn store(&mut self, key: B256, value: B256)
        ensures
            final(self)@ == old(self)@.insert(key, value),
    {
        self.writes.push((key, value));
        proof {
            assert(self.writes@.drop_last() =~= old(self).writes@);
        }
    }

    /// Returns the slot for `key`: the last value stored under it in this
    /// transaction, or the all-zero word if it was never written.
    pub fn load(&self, key: B256) -> (r: B256)
        ensures
            r == slot_of(self@, key),
    {
        let n: usize = self.writes.len();
        let mut i: usize = n;
        proof {
            assert(self.writes@.take(n as int) =~= self.writes@);
        }
        while i > 0
            invariant
                i <= self.writes@.len(),
                slot_of(entries_map(self.writes@), key) == slot_of(
                    entries_map(self.writes@.take(i as int)),
                    key,
                ),
            decreases i,
        {
            i = i - 1;
            proof {
                assert(self.writes@.take(i as int + 1).drop_last() =~= self.writes@.take(i as int));
            }
            if self.writes[i].0 == key {
                return self.writes[i].1;
            }
        }
        proof {
            assert(self.writes@.take(0) =~= Seq::<(B256, B256)>::empty());
        }
        B256::zero()
    }
}

/// Round trip within one transaction: a load of `key` right after
/// `store(key, value)` observes exactly `value`, whatever was in the store
/// before.
pub proof fn lemma_store_then_load(m: Map<B256, B256>, key: B256, value: B256)
    ensures
        slot_of(m.insert(key, value), key) == value,
{
}

/// A store to one key leaves every other slot as it was.
pub proof fn lemma_store_frame(m: Map<B256, B256>, key: B256, value: B256, other: B256)
    requires
        other != key,
    ensures
        slot_of(m.insert(key, value), other) == slot_of(m, other),
{
}

/// Transaction isolation: at the start of a transaction every slot reads as
/// the all-zero word — nothing stored in an earlier transaction is visible,
/// because each transaction begins with the empty slot map.
pub proof fn lemma_fresh_slot_zero(key: B256)
    ensures
        slot_of(Map::<B256, B256>::empty(), key) == B256::zero_spec(),
{
}

} // verus!

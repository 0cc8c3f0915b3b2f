use vstd::prelude::*;

use crate::addresses::Address;
use crate::entries::entries_map;

verus! {

/// The owner an index reads as under the map `m`, `None` when the index was
/// never attributed.
pub open spec fn owner_at(m: Map<u64, Address>, index: u64) -> Option<Address> {
    if m.contains_key(index) {
        Some(m[index])
    } else {
        None
    }
}

/// The record of which account each minted index was attributed to: an
/// in-memory table standing for the durable index to address map.
///
/// Held as the journal of writes; its view is the map those writes describe,
/// a later write to an index overriding an earlier one.
pub struct OwnerMap {
    writes: Vec<(u64, Address)>,
}

impl View for OwnerMap {
    type V = Map<u64, Address>;

    closed spec fn view(&self) -> Map<u64, Address> {
        entries_map(self.writes@)
    }
}

impl OwnerMap {
    /// The empty attribution record.
    pub fn new() -> (r: OwnerMap)
        ensures
            r@ == Map::<u64, Address>::empty(),
    {
        OwnerMap { writes: Vec::new() }
    }

    /// Records `owner` for `index`, overriding any earlier record.
    pub fn insert(&mut self, index: u64, owner: Address)
        ensures
            final(self)@ == old(self)@.insert(index, owner),
    {
        self.writes.push((index, owner));
        proof {
            assert(self.writes@.drop_last() =~= old(self).writes@);
        }
    }

    /// Returns the owner recorded for `index`, `None` when the index was never
    /// attributed.
    pub fn get(&self, index: u64) -> (r: Option<Address>)
        ensures
            r == owner_at(self@, index),
    {
        let n: usize = self.writes.len();
        let mut i: usize = n;
        proof {
            assert(self.writes@.take(n as int) =~= self.writes@);
        }
        while i > 0
            invariant
                i <= self.writes@.len(),
                owner_at(entries_map(self.writes@), index) == owner_at(
                    entries_map(self.writes@.take(i as int)),
                    index,
                ),
            decreases i,
        {
            i = i - 1;
            proof {
                assert(self.writes@.take(i as int + 1).drop_last() =~= self.writes@.take(i as int));
            }
            if self.writes[i].0 == index {
                return Some(self.writes[i].1);
            }
        }
        proof {
            assert(self.writes@.take(0) =~= Seq::<(u64, Address)>::empty());
        }
        None
    }
}

} // verus!

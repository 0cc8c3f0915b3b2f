use vstd::prelude::*;

verus! {

/// The map described by a journal of keyed writes: a later write to a key
/// overrides every earlier one, and a key never written is absent.
pub open spec fn entries_map<K, V>(s: Seq<(K, V)>) -> Map<K, V>
    decreases s.len(),
{
    if s.len() == 0 {
        Map::empty()
    } else {
        entries_map(s.drop_last()).insert(s.last().0, s.last().1)
    }
}

} // verus!

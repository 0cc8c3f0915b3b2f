use vstd::prelude::*;

verus! {

/// The selection formula: the caller's leading eight address bytes, read as a
/// big-endian unsigned integer, exclusive-or the block timestamp, taken modulo
/// the ledger size.
pub open spec fn select_spec(total: u64, timestamp: u64, caller_word: u64) -> u64
    recommends
        total > 0,
{
    (caller_word ^ timestamp) % total
}

/// Deterministic pseudo-random index selection over a non-empty ledger.
///
/// Both entropy sources (block timestamp, caller address) are known or
/// influenceable ahead of execution, so the output is predictable: this is a
/// documented weak-entropy design, deliberately not a secure generator, and
/// the formula is fixed because changing it would change observable selection
/// outcomes.
pub fn select(total: u64, timestamp: u64, caller_word: u64) -> (r: u64)
    requires
        total > 0,
    ensures
        r == select_spec(total, timestamp, caller_word),
        r < total,
{
    (caller_word ^ timestamp) % total
}

/// The selector is a pure function: its result is fixed by the three inputs
/// alone — `select` returns exactly `select_spec` of its arguments, so equal
/// inputs always select the same index — and the index lands in `[0, total)`.
pub proof fn lemma_select_in_range(total: u64, timestamp: u64, caller_word: u64)
    requires
        total > 0,
    ensures
        0 <= select_spec(total, timestamp, caller_word) < total,
{
}

} // verus!

use vstd::prelude::*;

verus! {

/// A 256-bit word, the value and key type of a transient slot, held as four
/// 64-bit limbs in big-endian order: `w0` holds the most significant eight
/// bytes and `w3` the least significant eight.
#[derive(Clone, Copy, Debug, PartialEq, Eq, Structural)]
pub struct B256 {
    pub w0: u64,
    pub w1: u64,
    pub w2: u64,
    pub w3: u64,
}

impl B256 {
    /// The all-zero word: the content of every transient slot that was never
    /// written in the current transaction.
    pub open spec fn zero_spec() -> B256 {
        B256 { w0: 0, w1: 0, w2: 0, w3: 0 }
    }

    pub fn zero() -> (r: B256)
        ensures
            r == B256::zero_spec(),
    {
        B256 { w0: 0, w1: 0, w2: 0, w3: 0 }
    }

    /// The big-endian 32-byte encoding of a 64-bit integer: the value lands in
    /// the least significant limb.
    pub open spec fn from_u64_spec(x: u64) -> B256 {
        B256 { w0: 0, w1: 0, w2: 0, w3: x }
    }

    pub fn from_u64(x: u64) -> (r: B256)
        ensures
            r == B256::from_u64_spec(x),
    {
        B256 { w0: 0, w1: 0, w2: 0, w3: x }
    }
}

} // verus!

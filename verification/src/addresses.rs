use vstd::prelude::*;

verus! {

/// A 160-bit account address held as 20 bytes in three big-endian limbs:
/// `w0` holds bytes 0 to 7, `w1` bytes 8 to 15, `w2` bytes 16 to 19.
///
/// The state layer reads exactly two things of an address: equality, for the
/// balance accounting, and the leading eight bytes as an unsigned big-endian
/// integer (`w0`), for the pseudo-random selector.
#[derive(Clone, Copy, Debug, PartialEq, Eq, Structural)]
pub struct Address {
    pub w0: u64,
    pub w1: u64,
    pub w2: u32,
}

} // verus!

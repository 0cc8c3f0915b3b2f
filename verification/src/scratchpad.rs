use vstd::prelude::*;

use crate::bytes32::B256;
use crate::transient::TransientStore;
use crate::transient::slot_of;

verus! {

/// The fixed transient slot key the demonstration uses.
pub open spec fn demo_key() -> B256 {
    B256::from_u64_spec(123)
}

/// The sentinel written before the nested call: the big-endian 32-byte
/// encoding of 456.
pub open spec fn demo_sentinel() -> B256 {
    B256::from_u64_spec(456)
}

/// How the host answered the nested same-contract call that `reentrant`
/// issues: it either delivered the call — re-entering `hello` within the same
/// transaction, against the same transient store — or signalled failure.
#[derive(Clone, Copy, Debug, PartialEq, Eq, Structural)]
pub enum NestedCall {
    Delivered,
    Failed,
}

/// Failure of the nested call, propagated to the caller of `reentrant`.
#[derive(Clone, Copy, Debug, PartialEq, Eq, Structural)]
pub enum CallError {
    NestedCallFailed,
}

/// The transient-storage demonstration contract: it shows that a value
/// written into a transient slot before a nested external call is observable
/// inside that call, without durable storage — the basis of
/// transient-storage-based reentrancy locks.
pub struct TStoreExample;

impl TStoreExample {
    /// Reads the fixed demonstration slot and returns it directly. This is the
    /// entry point the nested same-contract call lands on.
    pub fn hello(store: &TransientStore) -> (r: B256)
        ensures
            r == slot_of(store@, demo_key()),
    {
        store.load(B256::from_u64(123))
    }

    /// Writes the sentinel into the demonstration slot, then hands the nested
    /// read-only same-contract call to the host. A delivered call re-enters
    /// `hello` against the same transient store and so returns exactly the
    /// sentinel just written. A failed call is propagated to the caller as a
    /// failure of the whole operation — never masked by a default value.
    pub fn reentrant(&self, store: &mut TransientStore, nested: NestedCall) -> (r: Result<
        B256,
        CallError,
    >)
        ensures
            final(store)@ == old(store)@.insert(demo_key(), demo_sentinel()),
            nested == NestedCall::Delivered ==> r == Ok::<B256, CallError>(demo_sentinel()),
            nested == NestedCall::Failed ==> r == Err::<B256, CallError>(
                CallError::NestedCallFailed,
            ),
    {
        store.store(B256::from_u64(123), B256::from_u64(456));
        match nested {
            NestedCall::Delivered => Ok(Self::hello(store)),
            NestedCall::Failed => Err(CallError::NestedCallFailed),
        }
    }
}

} // verus!

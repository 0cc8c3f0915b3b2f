use fortune_ledger::bytes32::B256;
use fortune_ledger::scratchpad::CallError;
use fortune_ledger::scratchpad::NestedCall;
use fortune_ledger::scratchpad::TStoreExample;
use fortune_ledger::transient::TransientStore;

#[test]
fn reentrant_returns_sentinel() {
    let mut store = TransientStore::new();
    let contract = TStoreExample;
    let result = contract.reentrant(&mut store, NestedCall::Delivered);
    // The nested call observes exactly the bytes written before it: the
    // big-endian 32-byte encoding of 456.
    assert_eq!(result, Ok(B256::from_u64(456)));
    assert_eq!(store.load(B256::from_u64(123)), B256::from_u64(456));
}

#[test]
fn reentrant_propagates_failure() {
    let mut store = TransientStore::new();
    let contract = TStoreExample;
    let result = contract.reentrant(&mut store, NestedCall::Failed);
    assert_eq!(result, Err(CallError::NestedCallFailed));
    // The write before the failed call still happened in this transaction.
    assert_eq!(store.load(B256::from_u64(123)), B256::from_u64(456));
}

#[test]
fn hello_reads_demo_slot() {
    let mut store = TransientStore::new();
    assert_eq!(TStoreExample::hello(&store), B256::zero());
    store.store(B256::from_u64(123), B256::from_u64(9));
    assert_eq!(TStoreExample::hello(&store), B256::from_u64(9));
}

use fortune_ledger::bytes32::B256;
use fortune_ledger::transient::TransientStore;

#[test]
fn store_then_load_round_trip() {
    let mut store = TransientStore::new();
    let key = B256::from_u64(5);
    let value = B256::from_u64(77);
    store.store(key, value);
    assert_eq!(store.load(key), value);
}

#[test]
fn load_unwritten_key_is_zero() {
    let store = TransientStore::new();
    assert_eq!(store.load(B256::from_u64(5)), B256::zero());
}

#[test]
fn second_store_overwrites() {
    let mut store = TransientStore::new();
    let key = B256::from_u64(5);
    store.store(key, B256::from_u64(1));
    store.store(key, B256::from_u64(2));
    assert_eq!(store.load(key), B256::from_u64(2));
}

#[test]
fn stores_leave_other_keys_alone() {
    let mut store = TransientStore::new();
    let key = B256::from_u64(5);
    let other = B256::from_u64(6);
    store.store(key, B256::from_u64(1));
    store.store(other, B256::from_u64(2));
    assert_eq!(store.load(key), B256::from_u64(1));
}

#[test]
fn fresh_transaction_reads_zero() {
    // Transaction one writes a slot; the store is wiped at its end, so the
    // store of transaction two starts empty and the slot reads back as zero.
    let key = B256::from_u64(5);
    let mut first_tx = TransientStore::new();
    first_tx.store(key, B256::from_u64(77));
    drop(first_tx);
    let second_tx = TransientStore::new();
    assert_eq!(second_tx.load(key), B256::zero());
}

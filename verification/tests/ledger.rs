use fortune_ledger::addresses::Address;
use fortune_ledger::ledger::Fortune;
use fortune_ledger::selector::select;

fn addr(w0: u64, w1: u64, w2: u32) -> Address {
    Address { w0, w1, w2 }
}

#[test]
fn mint_then_read_in_order() {
    let mut ledger = Fortune::new();
    let caller = addr(1, 2, 3);
    ledger.mint_fortune(42, caller);
    ledger.mint_fortune(7, caller);
    assert_eq!(ledger.get_fortune(0), 42);
    assert_eq!(ledger.get_fortune(1), 7);
    assert_eq!(ledger.total_minted_value(), 2);
}

#[test]
fn read_past_end_returns_zero() {
    let mut ledger = Fortune::new();
    assert_eq!(ledger.get_fortune(0), 0);
    let caller = addr(1, 2, 3);
    ledger.mint_fortune(99, caller);
    assert_eq!(ledger.get_fortune(0), 99);
    assert_eq!(ledger.get_fortune(1), 0);
    assert_eq!(ledger.get_fortune(u64::MAX), 0);
}

#[test]
fn balances_count_each_mint() {
    let mut ledger = Fortune::new();
    let alice = addr(10, 0, 0);
    let bob = addr(20, 0, 0);
    ledger.mint_fortune(1, alice);
    ledger.mint_fortune(2, bob);
    ledger.mint_fortune(3, alice);
    assert_eq!(ledger.balances(alice), 2);
    assert_eq!(ledger.balances(bob), 1);
    assert_eq!(
        ledger.balances(alice) + ledger.balances(bob),
        ledger.total_minted_value()
    );
}

#[test]
fn balance_of_unknown_account_is_zero() {
    let mut ledger = Fortune::new();
    ledger.mint_fortune(5, addr(1, 1, 1));
    assert_eq!(ledger.balances(addr(2, 2, 2)), 0);
}

#[test]
fn generate_on_empty_returns_zero() {
    let ledger = Fortune::new();
    assert_eq!(ledger.generate_fortune(999, addr(4, 5, 6)), 0);
}

#[test]
fn generate_picks_selected_index() {
    let mut ledger = Fortune::new();
    let caller = addr(0, 0, 0);
    ledger.mint_fortune(10, caller);
    ledger.mint_fortune(20, caller);
    ledger.mint_fortune(30, caller);
    // (0 xor 4) mod 3 == 1, so the record at index 1 is selected.
    assert_eq!(ledger.generate_fortune(4, caller), 20);
}

#[test]
fn select_formula_concrete() {
    // (7 xor 1000) mod 5 == 1007 mod 5 == 2.
    assert_eq!(select(5, 1000, 7), 2);
}

#[test]
fn select_is_deterministic() {
    assert_eq!(
        select(97, 123_456_789, 0xdead_beef),
        select(97, 123_456_789, 0xdead_beef)
    );
}

#[test]
fn set_total_minted_overrides_counter() {
    let mut ledger = Fortune::new();
    ledger.set_total_minted(5);
    assert_eq!(ledger.total_minted_value(), 5);
}

#[test]
fn set_fortune_list_appends() {
    let mut ledger = Fortune::new();
    ledger.set_fortune_list(11);
    ledger.set_fortune_list(22);
    assert_eq!(ledger.get_fortune(0), 11);
    assert_eq!(ledger.get_fortune(1), 22);
    // The counter is untouched by the raw append.
    assert_eq!(ledger.total_minted_value(), 0);
}

#[test]
fn set_owner_records_attribution() {
    let mut ledger = Fortune::new();
    let owner = addr(7, 8, 9);
    ledger.set_owner(3, owner);
    assert_eq!(ledger.owner_of(3), Some(owner));
    assert_eq!(ledger.owner_of(2), None);
}

#[test]
fn owner_of_after_mint() {
    let mut ledger = Fortune::new();
    let alice = addr(10, 0, 0);
    let bob = addr(20, 0, 0);
    ledger.mint_fortune(1, alice);
    ledger.mint_fortune(2, bob);
    assert_eq!(ledger.owner_of(0), Some(alice));
    assert_eq!(ledger.owner_of(1), Some(bob));
    assert_eq!(ledger.owner_of(2), None);
}

#[test]
fn set_balances_overwrites() {
    let mut ledger = Fortune::new();
    let alice = addr(10, 0, 0);
    ledger.set_balances(alice, 40);
    ledger.set_balances(alice, 41);
    assert_eq!(ledger.balances(alice), 41);
}

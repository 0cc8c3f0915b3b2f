use vstd::prelude::*;

use crate::addresses::Address;
use crate::balances::BalanceMap;
use crate::balances::lemma_balance_le_sum;
use crate::owners::OwnerMap;
use crate::owners::owner_at;
use crate::selector::select;
use crate::selector::select_spec;

verus! {

/// The persistent ledger contract: the durable mint counter, the append-only
/// record list, the per-index owner attribution and the per-account balances.
///
/// The durable storage cells of the host appear here as explicit in-memory
/// fields; the caller address and the block timestamp, which the host supplies
/// to an entry point, are passed in as plain values.
pub struct Fortune {
    total_minted: u64,
    fortune_list: Vec<u32>,
    owners: OwnerMap,
    balance_table: BalanceMap,
}

impl Fortune {
    /// The number of records minted.
    pub closed spec fn total_spec(&self) -> u64 {
        self.total_minted
    }

    /// The minted records, in insertion order.
    pub closed spec fn records(&self) -> Seq<u32> {
        self.fortune_list@
    }

    /// The owner attributed to each minted index.
    pub closed spec fn owners_map(&self) -> Map<u64, Address> {
        self.owners@
    }

    /// The balance of an account: the number of mints attributed to it, zero
    /// for an account that never minted.
    pub closed spec fn balance_spec(&self, a: Address) -> u64 {
        self.balance_table.get_spec(a)
    }

    /// The sum of every recorded balance.
    pub closed spec fn balance_sum(&self) -> int {
        self.balance_table.sum()
    }

    /// What a read of `index` observes: the record at `index`, or zero past
    /// the end of the list.
    pub open spec fn get_spec(&self, index: u64) -> u32 {
        if index < self.records().len() {
            self.records()[index as int]
        } else {
            0
        }
    }

    /// A well-formed ledger: the record list is exactly as long as the counter
    /// says, and the balances account for every mint. The deployment state is
    /// well formed, and every entry-point mutation preserves this.
    pub open spec fn wf(&self) -> bool {
        &&& self.records().len() == self.total_spec()
        &&& self.balance_sum() == self.total_spec() as int
    }

    /// The contract state at deployment: zero-initialized storage, nothing
    /// minted, no owner attributed, every balance zero.
    pub fn new() -> (r: Fortune)
        ensures
            r.wf(),
            r.total_spec() == 0,
            r.records() == Seq::<u32>::empty(),
            r.owners_map() == Map::<u64, Address>::empty(),
            forall|a: Address| r.balance_spec(a) == 0,
    {
        let r = Fortune {
            total_minted: 0,
            fortune_list: Vec::new(),
            owners: OwnerMap::new(),
            balance_table: BalanceMap::new(),
        };
        proof {
            assert(r.records() =~= Seq::<u32>::empty());
        }
        r
    }

    /// Mints `fortune` for `caller`: appends the record, attributes the new
    /// index — the counter before the mint — to `caller`, advances the counter
    /// and raises `caller`'s balance by one. The counter growing past the
    /// 64-bit domain is a fatal host trap that aborts the whole transaction;
    /// the precondition leaves that input out.
    pub fn mint_fortune(&mut self, fortune: u32, caller: Address)
        requires
            old(self).wf(),
            old(self).total_spec() < u64::MAX,
        ensures
            final(self).wf(),
            final(self).total_spec() == old(self).total_spec() + 1,
            final(self).records() == old(self).records().push(fortune),
            final(self).owners_map() == old(self).owners_map().insert(
                old(self).total_spec(),
                caller,
            ),
            final(self).balance_spec(caller) == old(self).balance_spec(caller) + 1,
            forall|a: Address|
                a != caller ==> final(self).balance_spec(a) == old(self).balance_spec(a),
    {
        let total_minted: u64 = self.total_minted_value();
        self.set_fortune_list(fortune);
        self.set_owner(total_minted, caller);
        self.set_total_minted(total_minted + 1);
        let balance: u64 = self.balances(caller);
        proof {
            lemma_balance_le_sum(&self.balance_table, caller);
        }
        self.set_balances(caller, balance + 1);
    }

    /// Returns the record at `index`, or zero when `index` is at or past the
    /// total: the host-exposed read path never traps, by design.
    pub fn get_fortune(&self, index: u64) -> (r: u32)
        ensures
            r == self.get_spec(index),
            index >= self.records().len() ==> r == 0,
            self.wf() && index >= self.total_spec() ==> r == 0,
    {
        let len: usize = self.fortune_list.len();
        if index < (len as u64) {
            self.fortune_list[index as usize]
        } else {
            0
        }
    }

    /// Picks a pseudo-random minted record: on an empty ledger it
    /// short-circuits to zero without ever invoking the selector — the
    /// division-by-zero case never reaches it — and otherwise it reads the
    /// record at the selected index, which lies in `[0, total)`.
    pub fn generate_fortune(&self, timestamp: u64, caller: Address) -> (r: u32)
        ensures
            self.total_spec() == 0 ==> r == 0,
            self.total_spec() > 0 ==> r == self.get_spec(
                select_spec(self.total_spec(), timestamp, caller.w0),
            ),
    {
        let total: u64 = self.total_minted_value();
        if total == 0 {
            return 0;
        }
        let random_index: u64 = select(total, timestamp, caller.w0);
        self.get_fortune(random_index)
    }

    /// Returns the total number of records minted.
    pub fn total_minted_value(&self) -> (r: u64)
        ensures
            r == self.total_spec(),
    {
        self.total_minted
    }

    /// Sets the counter directly; the list, the owners and the balances stay
    /// as they are.
    pub fn set_total_minted(&mut self, total: u64)
        ensures
            final(self).total_spec() == total,
            final(self).records() == old(self).records(),
            final(self).owners_map() == old(self).owners_map(),
            forall|a: Address| final(self).balance_spec(a) == old(self).balance_spec(a),
            final(self).balance_sum() == old(self).balance_sum(),
    {
        self.total_minted = total;
    }

    /// Appends a record to the list; the counter, the owners and the balances
    /// stay as they are.
    pub fn set_fortune_list(&mut self, fortune: u32)
        ensures
            final(self).records() == old(self).records().push(fortune),
            final(self).total_spec() == old(self).total_spec(),
            final(self).owners_map() == old(self).owners_map(),
            forall|a: Address| final(self).balance_spec(a) == old(self).balance_spec(a),
            final(self).balance_sum() == old(self).balance_sum(),
    {
        self.fortune_list.push(fortune);
    }

    /// Records `owner` for the record at `index`, overriding any earlier
    /// attribution; the rest of the state stays as it is.
    pub fn set_owner(&mut self, index: u64, owner: Address)
        ensures
            final(self).owners_map() == old(self).owners_map().insert(index, owner),
            final(self).total_spec() == old(self).total_spec(),
            final(self).records() == old(self).records(),
            forall|a: Address| final(self).balance_spec(a) == old(self).balance_spec(a),
            final(self).balance_sum() == old(self).balance_sum(),
    {
        self.owners.insert(index, owner);
    }

    /// Returns the owner attributed to `index`, `None` when no mint or
    /// attribution reached it.
    pub fn owner_of(&self, index: u64) -> (r: Option<Address>)
        ensures
            r == owner_at(self.owners_map(), index),
    {
        self.owners.get(index)
    }

    /// Returns the balance of `address`: the stored value, or zero if the
    /// account has never minted.
    pub fn balances(&self, address: Address) -> (r: u64)
        ensures
            r == self.balance_spec(address),
    {
        self.balance_table.get(address)
    }

    /// Sets the balance of `address` directly, leaving every other account as
    /// it was; the sum of balances moves by the difference.
    pub fn set_balances(&mut self, address: Address, balance: u64)
        ensures
            final(self).balance_spec(address) == balance,
            forall|a: Address|
                a != address ==> final(self).balance_spec(a) == old(self).balance_spec(a),
            final(self).balance_sum() == old(self).balance_sum() - old(self).balance_spec(address)
                + balance,
            final(self).total_spec() == old(self).total_spec(),
            final(self).records() == old(self).records(),
            final(self).owners_map() == old(self).owners_map(),
    {
        self.balance_table.set(address, balance);
    }
}

/// The counter and record list a run of mints leaves behind: each mint, as
/// `mint_fortune` ensures, advances the counter by one and appends its value
/// to the list.
pub open spec fn ledger_after_mints(total: int, records: Seq<u32>, minted: Seq<u32>) -> (
    int,
    Seq<u32>,
)
    decreases minted.len(),
{
    if minted.len() == 0 {
        (total, records)
    } else {
        ledger_after_mints(total + 1, records.push(minted[0]), minted.drop_first())
    }
}

/// Replaying any sequence of mints advances the counter once per mint and
/// appends exactly the minted values, in order.
pub proof fn lemma_mint_sequence(total: int, records: Seq<u32>, minted: Seq<u32>)
    ensures
        ledger_after_mints(total, records, minted).0 == total + minted.len(),
        ledger_after_mints(total, records, minted).1 =~= records + minted,
    decreases minted.len(),
{
    if minted.len() == 0 {
        assert(records + minted =~= records);
    } else {
        lemma_mint_sequence(total + 1, records.push(minted[0]), minted.drop_first());
        assert(records.push(minted[0]) + minted.drop_first() =~= records + minted);
    }
}

/// The deployment-state corollary: a run of N mints from deployment leaves
/// the total at N and the list holding the N minted values at indices 0 to
/// N - 1, so a read of index i observes the i-th minted value.
pub proof fn lemma_mint_sequence_from_empty(minted: Seq<u32>)
    ensures
        ledger_after_mints(0, Seq::<u32>::empty(), minted).0 == minted.len(),
        ledger_after_mints(0, Seq::<u32>::empty(), minted).1 =~= minted,
{
    lemma_mint_sequence(0, Seq::<u32>::empty(), minted);
    assert(Seq::<u32>::empty() + minted =~= minted);
}

/// Conservation of balances: in every well-formed ledger state the sum of all
/// recorded balances equals the total minted. The deployment state has both at
/// zero, and `mint_fortune` raises both by one.
pub proof fn lemma_balance_conservation(l: &Fortune)
    requires
        l.wf(),
    ensures
        l.balance_sum() == l.total_spec() as int,
{
}

} // verus!

use vstd::prelude::*;

use crate::addresses::Address;

verus! {

/// The balance a table of entries gives an account: the first entry for the
/// account, or zero for an account with no entry.
pub open spec fn table_get(s: Seq<(Address, u64)>, a: Address) -> u64
    decreases s.len(),
{
    if s.len() == 0 {
        0
    } else if s[0].0 == a {
        s[0].1
    } else {
        table_get(s.drop_first(), a)
    }
}

/// The sum of every entry of the table.
pub open spec fn table_sum(s: Seq<(Address, u64)>) -> int
    decreases s.len(),
{
    if s.len() == 0 {
        0
    } else {
        s[0].1 + table_sum(s.drop_first())
    }
}

proof fn lemma_sum_nonneg(s: Seq<(Address, u64)>)
    ensures
        table_sum(s) >= 0,
    decreases s.len(),
{
    if s.len() > 0 {
        lemma_sum_nonneg(s.drop_first());
    }
}

proof fn lemma_get_le_sum(s: Seq<(Address, u64)>, a: Address)
    ensures
        table_get(s, a) <= table_sum(s),
    decreases s.len(),
{
    if s.len() == 0 {
    } else if s[0].0 == a {
        lemma_sum_nonneg(s.drop_first());
    } else {
        lemma_get_le_sum(s.drop_first(), a);
    }
}

proof fn lemma_update_entry(s: Seq<(Address, u64)>, i: int, a: Address, v: u64)
    requires
        0 <= i < s.len(),
        s[i].0 == a,
        forall|j: int| 0 <= j < i ==> s[j].0 != a,
    ensures
        table_get(s, a) == s[i].1,
        table_get(s.update(i, (a, v)), a) == v,
        forall|b: Address| b != a ==> table_get(s.update(i, (a, v)), b) == table_get(s, b),
        table_sum(s.update(i, (a, v))) == table_sum(s) - s[i].1 + v,
    decreases s.len(),
{
    let s2 = s.update(i, (a, v));
    if i == 0 {
        assert(s2.drop_first() =~= s.drop_first());
    } else {
        assert(s2.drop_first() =~= s.drop_first().update(i - 1, (a, v)));
        assert forall|j: int| 0 <= j < i - 1 implies s.drop_first()[j].0 != a by {
            assert(s[j + 1].0 != a);
        }
        lemma_update_entry(s.drop_first(), i - 1, a, v);
        assert(s[0].0 != a);
        assert forall|b: Address| b != a implies table_get(s2, b) == table_get(s, b) by {
            if s[0].0 == b {
            } else {
                assert(table_get(s.drop_first().update(i - 1, (a, v)), b) == table_get(
                    s.drop_first(),
                    b,
                ));
            }
        }
    }
}

proof fn lemma_push_entry(s: Seq<(Address, u64)>, a: Address, v: u64)
    requires
        forall|j: int| 0 <= j < s.len() ==> s[j].0 != a,
    ensures
        table_get(s, a) == 0,
        table_get(s.push((a, v)), a) == v,
        forall|b: Address| b != a ==> table_get(s.push((a, v)), b) == table_get(s, b),
        table_sum(s.push((a, v))) == table_sum(s) + v,
    decreases s.len(),
{
    let p = s.push((a, v));
    if s.len() == 0 {
        assert(p.drop_first() =~= Seq::<(Address, u64)>::empty());
        assert(p[0] == (a, v));
        assert(table_sum(p) == v + table_sum(p.drop_first()));
        assert forall|b: Address| b != a implies table_get(p, b) == table_get(s, b) by {
            assert(table_get(p, b) == table_get(p.drop_first(), b));
        }
    } else {
        assert(p.drop_first() =~= s.drop_first().push((a, v)));
        assert forall|j: int| 0 <= j < s.drop_first().len() implies s.drop_first()[j].0 != a by {
            assert(s[j + 1].0 != a);
        }
        lemma_push_entry(s.drop_first(), a, v);
        assert(s[0].0 != a);
        assert(p[0] == s[0]);
        assert(table_sum(p) == s[0].1 + table_sum(p.drop_first()));
        assert forall|b: Address| b != a implies table_get(p, b) == table_get(s, b) by {
            if s[0].0 == b {
            } else {
                assert(table_get(s.drop_first().push((a, v)), b) == table_get(s.drop_first(), b));
            }
        }
    }
}

/// Per-account balance accounting: an in-memory table standing for the durable
/// address to 64-bit-integer map, with an account that never minted reading as
/// zero.
pub struct BalanceMap {
    entries: Vec<(Address, u64)>,
}

impl BalanceMap {
    /// The balance recorded for `a`; zero when `a` has no entry.
    pub closed spec fn get_spec(&self, a: Address) -> u64 {
        table_get(self.entries@, a)
    }

    /// The sum of every recorded balance.
    pub closed spec fn sum(&self) -> int {
        table_sum(self.entries@)
    }

    /// The empty table: every account at zero.
    pub fn new() -> (r: BalanceMap)
        ensures
            forall|a: Address| r.get_spec(a) == 0,
            r.sum() == 0,
    {
        BalanceMap { entries: Vec::new() }
    }

    /// Returns the balance recorded for `a`, zero when absent.
    pub fn get(&self, a: Address) -> (r: u64)
        ensures
            r == self.get_spec(a),
    {
        let n: usize = self.entries.len();
        let mut i: usize = 0;
        proof {
            assert(self.entries@.skip(0) =~= self.entries@);
        }
        while i < n
            invariant
                n == self.entries@.len(),
                i <= n,
                table_get(self.entries@, a) == table_get(self.entries@.skip(i as int), a),
            decreases n - i,
        {
            proof {
                assert(self.entries@.skip(i as int).drop_first() =~= self.entries@.skip(
                    i as int + 1,
                ));
                assert(self.entries@.skip(i as int)[0] == self.entries@[i as int]);
            }
            if self.entries[i].0 == a {
                return self.entries[i].1;
            }
            i = i + 1;
        }
        proof {
            assert(self.entries@.skip(n as int) =~= Seq::<(Address, u64)>::empty());
        }
        0
    }

    /// Sets the balance of `a` to `v`, leaving every other account as it was;
    /// the sum moves by exactly the difference between the new and the old
    /// balance of `a`.
    pub fn set(&mut self, a: Address, v: u64)
        ensures
            final(self).get_spec(a) == v,
            forall|b: Address| b != a ==> final(self).get_spec(b) == old(self).get_spec(b),
            final(self).sum() == old(self).sum() - old(self).get_spec(a) + v,
    {
        let n: usize = self.entries.len();
        let mut i: usize = 0;
        while i < n
            invariant
                n == self.entries@.len(),
                i <= n,
                self.entries@ == old(self).entries@,
                forall|j: int| 0 <= j < i ==> self.entries@[j].0 != a,
            decreases n - i,
        {
            if self.entries[i].0 == a {
                self.entries[i] = (a, v);
                proof {
                    lemma_update_entry(old(self).entries@, i as int, a, v);
                }
                return;
            }
            i = i + 1;
        }
        self.entries.push((a, v));
        proof {
            lemma_push_entry(old(self).entries@, a, v);
        }
    }
}

/// No single balance exceeds the sum of all balances: the bound that keeps a
/// balance increment inside the 64-bit domain whenever the sum itself is.
pub proof fn lemma_balance_le_sum(m: &BalanceMap, a: Address)
    ensures
        0 <= m.get_spec(a) <= m.sum(),
{
    lemma_get_le_sum(m.entries@, a);
}

} // verus!

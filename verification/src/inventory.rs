//! Player inventory: item counts plus the OMEN currency balance.
//!
//! The item table is a vector of entries with pairwise-distinct keys and
//! strictly positive counts whose sum never exceeds the capacity; the OMEN
//! balance is an unsigned count of centi-OMEN, so it can never go negative.

use vstd::prelude::*;

use crate::config;

verus! {

/// One item stack: a key and a positive count.
pub struct ItemEntry {
    pub item: String,
    pub count: u32,
}

impl Clone for ItemEntry {
    fn clone(&self) -> (r: Self)
        ensures
            r == *self,
    {
        ItemEntry { item: self.item.clone(), count: self.count }
    }
}

/// Sum of all counts in an entry sequence.
pub open spec fn sum_counts(s: Seq<ItemEntry>) -> nat
    decreases s.len(),
{
    if s.len() == 0 {
        0
    } else {
        (s[0].count + sum_counts(s.subrange(1, s.len() as int))) as nat
    }
}

/// Count stored under `key`: the count of the first entry with that key,
/// or zero when no entry has it.
pub open spec fn count_of(s: Seq<ItemEntry>, key: Seq<char>) -> nat
    decreases s.len(),
{
    if s.len() == 0 {
        0
    } else if s[0].item@ == key {
        s[0].count as nat
    } else {
        count_of(s.subrange(1, s.len() as int), key)
    }
}

/// The entry keys are pairwise distinct.
pub open spec fn unique_keys(s: Seq<ItemEntry>) -> bool {
    forall|i: int, j: int| 0 <= i < j < s.len() ==> (#[trigger] s[i]).item@ != (#[trigger] s[j]).item@
}

proof fn lemma_sum_update(s: Seq<ItemEntry>, i: int, e: ItemEntry)
    requires
        0 <= i < s.len(),
    ensures
        sum_counts(s.update(i, e)) == sum_counts(s) - s[i].count + e.count,
    decreases s.len(),
{
    let t = s.update(i, e);
    if i == 0 {
        assert(t.subrange(1, t.len() as int) =~= s.subrange(1, s.len() as int));
    } else {
        assert(t.subrange(1, t.len() as int) =~= s.subrange(1, s.len() as int).update(i - 1, e));
        lemma_sum_update(s.subrange(1, s.len() as int), i - 1, e);
    }
}

proof fn lemma_sum_push(s: Seq<ItemEntry>, e: ItemEntry)
    ensures
        sum_counts(s.push(e)) == sum_counts(s) + e.count,
    decreases s.len(),
{
    let t = s.push(e);
    assert(t[0] == if s.len() == 0 { e } else { s[0] });
    assert(sum_counts(t) == t[0].count + sum_counts(t.subrange(1, t.len() as int)));
    if s.len() == 0 {
        assert(t.subrange(1, t.len() as int) =~= Seq::<ItemEntry>::empty());
        assert(sum_counts(t.subrange(1, t.len() as int)) == 0);
        assert(sum_counts(s) == 0);
    } else {
        assert(t.subrange(1, t.len() as int) =~= s.subrange(1, s.len() as int).push(e));
        lemma_sum_push(s.subrange(1, s.len() as int), e);
        assert(sum_counts(s) == s[0].count + sum_counts(s.subrange(1, s.len() as int)));
    }
}

proof fn lemma_sum_remove(s: Seq<ItemEntry>, i: int)
    requires
        0 <= i < s.len(),
    ensures
        sum_counts(s.remove(i)) == sum_counts(s) - s[i].count,
    decreases s.len(),
{
    let t = s.remove(i);
    if i == 0 {
        assert(t =~= s.subrange(1, s.len() as int));
    } else {
        assert(t.subrange(1, t.len() as int) =~= s.subrange(1, s.len() as int).remove(i - 1));
        assert(t[0] == s[0]);
        lemma_sum_remove(s.subrange(1, s.len() as int), i - 1);
    }
}

/// When the first `i` entries miss `key` and entry `i` carries it, the count
/// under `key` is entry `i`'s count.
proof fn lemma_count_at(s: Seq<ItemEntry>, i: int, key: Seq<char>)
    requires
        0 <= i < s.len(),
        s[i].item@ == key,
        forall|j: int| 0 <= j < i ==> (#[trigger] s[j]).item@ != key,
    ensures
        count_of(s, key) == s[i].count,
    decreases i,
{
    if i > 0 {
        lemma_count_at(s.subrange(1, s.len() as int), i - 1, key);
    }
}

/// When no entry carries `key`, the count under it is zero.
proof fn lemma_count_absent(s: Seq<ItemEntry>, key: Seq<char>)
    requires
        forall|j: int| 0 <= j < s.len() ==> (#[trigger] s[j]).item@ != key,
    ensures
        count_of(s, key) == 0,
    decreases s.len(),
{
    if s.len() > 0 {
        lemma_count_absent(s.subrange(1, s.len() as int), key);
    }
}

/// Replacing entry `i` by one with the same key leaves all other keys'
/// counts unchanged.
proof fn lemma_count_update_other(s: Seq<ItemEntry>, i: int, e: ItemEntry, key: Seq<char>)
    requires
        0 <= i < s.len(),
        s[i].item@ != key,
        e.item@ != key,
    ensures
        count_of(s.update(i, e), key) == count_of(s, key),
    decreases s.len(),
{
    let t = s.update(i, e);
    if i == 0 {
        assert(t.subrange(1, t.len() as int) =~= s.subrange(1, s.len() as int));
    } else {
        assert(t.subrange(1, t.len() as int) =~= s.subrange(1, s.len() as int).update(i - 1, e));
        lemma_count_update_other(s.subrange(1, s.len() as int), i - 1, e, key);
    }
}

/// Appending an entry leaves every other key's count unchanged.
proof fn lemma_count_push_other(s: Seq<ItemEntry>, e: ItemEntry, key: Seq<char>)
    requires
        e.item@ != key,
    ensures
        count_of(s.push(e), key) == count_of(s, key),
    decreases s.len(),
{
    let t = s.push(e);
    assert(t[0] == if s.len() == 0 { e } else { s[0] });
    if s.len() == 0 {
        assert(t.subrange(1, t.len() as int) =~= Seq::<ItemEntry>::empty());
        assert(count_of(Seq::<ItemEntry>::empty(), key) == 0);
        assert(count_of(t, key) == 0);
        assert(count_of(s, key) == 0);
    } else {
        assert(t.subrange(1, t.len() as int) =~= s.subrange(1, s.len() as int).push(e));
        lemma_count_push_other(s.subrange(1, s.len() as int), e, key);
    }
}

/// Removing an entry with a different key leaves `key`'s count unchanged.
proof fn lemma_count_remove_other(s: Seq<ItemEntry>, i: int, key: Seq<char>)
    requires
        0 <= i < s.len(),
        s[i].item@ != key,
    ensures
        count_of(s.remove(i), key) == count_of(s, key),
    decreases s.len(),
{
    let t = s.remove(i);
    if i == 0 {
        assert(t =~= s.subrange(1, s.len() as int));
    } else {
        assert(t[0] == s[0]);
        assert(t.subrange(1, t.len() as int) =~= s.subrange(1, s.len() as int).remove(i - 1));
        lemma_count_remove_other(s.subrange(1, s.len() as int), i - 1, key);
    }
}

pub struct Inventory {
    pub items: Vec<ItemEntry>,
    pub max_capacity: u32,
    /// Balance in centi-OMEN; the type keeps it non-negative.
    pub omen_balance: u64,
}

impl Inventory {
    /// Entries have distinct keys and positive counts, and the counts sum to
    /// at most the capacity.
    pub open spec fn wf(&self) -> bool {
        &&& unique_keys(self.items@)
        &&& forall|i: int| 0 <= i < self.items@.len() ==> (#[trigger] self.items@[i]).count > 0
        &&& sum_counts(self.items@) <= self.max_capacity
    }

    /// Count stored under `key`.
    pub open spec fn spec_get(&self, key: Seq<char>) -> nat {
        count_of(self.items@, key)
    }

    /// Sum of all counts.
    pub open spec fn spec_total(&self) -> nat {
        sum_counts(self.items@)
    }

    pub fn new(max_capacity: u32) -> (r: Self)
        ensures
            r.wf(),
            r.items@.len() == 0,
            r.spec_total() == 0,
            r.max_capacity == max_capacity,
            r.omen_balance == config::STARTING_OMEN_CENTI,
            forall|k: Seq<char>| r.spec_get(k) == 0,
    {
        Inventory { items: Vec::new(), max_capacity, omen_balance: config::STARTING_OMEN_CENTI }
    }

    /// Index of the entry holding `item`, if any.
    fn find(&self, item: &str) -> (r: Option<usize>)
        ensures
            match r {
                Some(i) => {
                    &&& i < self.items@.len()
                    &&& self.items@[i as int].item@ == item@
                    &&& forall|j: int| 0 <= j < i ==> (#[trigger] self.items@[j]).item@ != item@
                },
                None => forall|j: int|
                    0 <= j < self.items@.len() ==> (#[trigger] self.items@[j]).item@ != item@,
            },
    {
        let key = item.to_owned();
        let n = self.items.len();
        for i in 0..n
            invariant
                n == self.items@.len(),
                key@ == item@,
                forall|j: int| 0 <= j < i ==> (#[trigger] self.items@[j]).item@ != item@,
        {
            if self.items[i].item == key {
                return Some(i);
            }
        }
        None
    }

    /// Count stored under `item`; zero when absent.
    pub fn get(&self, item: &str) -> (r: u32)
        ensures
            r == self.spec_get(item@),
    {
        match self.find(item) {
            Some(i) => {
                proof {
                    lemma_count_at(self.items@, i as int, item@);
                }
                self.items[i].count
            },
            None => {
                proof {
                    lemma_count_absent(self.items@, item@);
                }
                0
            },
        }
    }

    /// Whether at least `qty` of `item` is held.
    pub fn has(&self, item: &str, qty: u32) -> (r: bool)
        ensures
            r == (self.spec_get(item@) >= qty),
    {
        self.get(item) >= qty
    }

    /// Sum of all item counts.
    pub fn total(&self) -> (r: u32)
        requires
            self.wf(),
        ensures
            r == self.spec_total(),
    {
        let mut acc: u32 = 0;
        let n = self.items.len();
        let ghost s = self.items@;
        proof {
            assert(s.subrange(0, s.len() as int) =~= s);
        }
        for i in 0..n
            invariant
                n == s.len(),
                acc + sum_counts(s.subrange(i as int, s.len() as int)) == sum_counts(s),
                acc <= self.max_capacity,
                s == self.items@,
                sum_counts(s) <= self.max_capacity,
        {
            proof {
                assert(s.subrange(i as int, s.len() as int).subrange(
                    1,
                    s.subrange(i as int, s.len() as int).len() as int,
                ) =~= s.subrange(i + 1, s.len() as int));
                assert(s.subrange(i as int, s.len() as int)[0] == s[i as int]);
                lemma_sum_tail_le(s, i as int);
            }
            acc = acc + self.items[i].count;
        }
        proof {
            assert(s.subrange(s.len() as int, s.len() as int) =~= Seq::<ItemEntry>::empty());
        }
        acc
    }

    /// All entries, for snapshots and persistence.
    pub fn get_all(&self) -> (r: &Vec<ItemEntry>)
        ensures
            r@ == self.items@,
    {
        &self.items
    }

    /// Add `qty` of `item`. Fails exactly when `qty` is zero or the capacity
    /// would be exceeded; on failure nothing changes.
    pub fn add(&mut self, item: &str, qty: u32) -> (r: bool)
        requires
            old(self).wf(),
        ensures
            final(self).wf(),
            r == (qty > 0 && old(self).spec_total() + qty <= old(self).max_capacity),
            final(self).max_capacity == old(self).max_capacity,
            final(self).omen_balance == old(self).omen_balance,
            r ==> {
                &&& final(self).spec_get(item@) == old(self).spec_get(item@) + qty
                &&& final(self).spec_total() == old(self).spec_total() + qty
                &&& forall|k: Seq<char>|
                    k != item@ ==> final(self).spec_get(k) == old(self).spec_get(k)
            },
            !r ==> *final(self) == *old(self),
    {
        if qty == 0 {
            return false;
        }
        let t = self.total();
        if qty > self.max_capacity || t > self.max_capacity - qty {
            return false;
        }
        match self.find(item) {
            Some(i) => {
                proof {
                    lemma_count_at(self.items@, i as int, item@);
                    lemma_sum_le_at(self.items@, i as int);
                }
                let e = ItemEntry {
                    item: self.items[i].item.clone(),
                    count: self.items[i].count + qty,
                };
                let ghost olds = self.items@;
                proof {
                    lemma_sum_update(olds, i as int, e);
                }
                self.items[i] = e;
                proof {
                    lemma_count_at(self.items@, i as int, item@);
                    assert forall|k: Seq<char>| k != item@ implies self.spec_get(k) == count_of(olds, k) by {
                        lemma_count_update_other(olds, i as int, e, k);
                    }
                }
            },
            None => {
                proof {
                    lemma_count_absent(self.items@, item@);
                }
                let key = item.to_owned();
                let e = ItemEntry { item: key, count: qty };
                let ghost olds = self.items@;
                proof {
                    lemma_sum_push(olds, e);
                }
                self.items.push(e);
                proof {
                    lemma_count_at(self.items@, olds.len() as int, item@);
                    assert forall|k: Seq<char>| k != item@ implies self.spec_get(k) == count_of(olds, k) by {
                        lemma_count_push_other(olds, e, k);
                    }
                }
            },
        }
        true
    }

    /// Remove `qty` of `item`. Fails exactly when `qty` is zero or fewer than
    /// `qty` are held; an entry whose count reaches zero is erased.
    pub fn remove(&mut self, item: &str, qty: u32) -> (r: bool)
        requires
            old(self).wf(),
        ensures
            final(self).wf(),
            r == (qty > 0 && old(self).spec_get(item@) >= qty),
            final(self).max_capacity == old(self).max_capacity,
            final(self).omen_balance == old(self).omen_balance,
            r ==> {
                &&& final(self).spec_get(item@) == old(self).spec_get(item@) - qty
                &&& final(self).spec_total() == old(self).spec_total() - qty
                &&& forall|k: Seq<char>|
                    k != item@ ==> final(self).spec_get(k) == old(self).spec_get(k)
            },
            !r ==> *final(self) == *old(self),
    {
        if qty == 0 {
            return false;
        }
        match self.find(item) {
            Some(i) => {
                proof {
                    lemma_count_at(self.items@, i as int, item@);
                }
                let current = self.items[i].count;
                if current < qty {
                    return false;
                }
                let ghost olds = self.items@;
                if current == qty {
                    proof {
                        lemma_sum_remove(olds, i as int);
                        olds.remove_ensures(i as int);
                    }
                    self.items.remove(i);
                    proof {
                        assert forall|j: int|
                            0 <= j < self.items@.len() implies (#[trigger] self.items@[j]).item@
                            != item@ by {
                            if j < i {
                            } else {
                                assert(self.items@[j] == olds[j + 1]);
                            }
                        }
                        lemma_count_absent(self.items@, item@);
                        assert forall|k: Seq<char>| k != item@ implies self.spec_get(k) == count_of(olds, k) by {
                            lemma_count_remove_other(olds, i as int, k);
                        }
                    }
                } else {
                    let e = ItemEntry { item: self.items[i].item.clone(), count: current - qty };
                    proof {
                        lemma_sum_update(olds, i as int, e);
                    }
                    self.items[i] = e;
                    proof {
                        lemma_count_at(self.items@, i as int, item@);
                        assert forall|k: Seq<char>| k != item@ implies self.spec_get(k) == count_of(olds, k) by {
                            lemma_count_update_other(olds, i as int, e, k);
                        }
                    }
                }
                true
            },
            None => {
                proof {
                    lemma_count_absent(self.items@, item@);
                }
                false
            },
        }
    }

    /// Add OMEN; fails exactly when the amount is zero.
    pub fn add_omen(&mut self, amount: u64) -> (r: bool)
        requires
            old(self).omen_balance + amount <= u64::MAX,
        ensures
            r == (amount > 0),
            r ==> final(self).omen_balance == old(self).omen_balance + amount,
            !r ==> *final(self) == *old(self),
            final(self).items@ == old(self).items@,
            final(self).max_capacity == old(self).max_capacity,
            old(self).wf() ==> final(self).wf(),
    {
        if amount == 0 {
            return false;
        }
        self.omen_balance = self.omen_balance + amount;
        true
    }

    /// Remove OMEN; fails exactly when the amount is zero or exceeds the
    /// balance, so the balance never goes negative.
    pub fn remove_omen(&mut self, amount: u64) -> (r: bool)
        ensures
            r == (amount > 0 && old(self).omen_balance >= amount),
            r ==> final(self).omen_balance == old(self).omen_balance - amount,
            !r ==> *final(self) == *old(self),
            final(self).items@ == old(self).items@,
            final(self).max_capacity == old(self).max_capacity,
            old(self).wf() ==> final(self).wf(),
    {
        if amount == 0 {
            return false;
        }
        if self.omen_balance < amount {
            return false;
        }
        self.omen_balance = self.omen_balance - amount;
        true
    }

    /// Credit OMEN, saturating at the type's maximum.
    pub fn credit_omen(&mut self, amount: u64)
        ensures
            final(self).omen_balance == if old(self).omen_balance + amount <= u64::MAX {
                (old(self).omen_balance + amount) as u64
            } else {
                u64::MAX
            },
            final(self).items@ == old(self).items@,
            final(self).max_capacity == old(self).max_capacity,
            old(self).wf() ==> final(self).wf(),
    {
        if self.omen_balance > u64::MAX - amount {
            self.omen_balance = u64::MAX;
        } else {
            self.omen_balance = self.omen_balance + amount;
        }
    }

    /// Whether the balance covers `amount`.
    pub fn has_omen(&self, amount: u64) -> (r: bool)
        ensures
            r == (self.omen_balance >= amount),
    {
        self.omen_balance >= amount
    }
}

/// The sum of a suffix never exceeds the sum of the whole sequence.
proof fn lemma_sum_tail_le(s: Seq<ItemEntry>, i: int)
    requires
        0 <= i < s.len(),
    ensures
        sum_counts(s.subrange(i, s.len() as int)) == s[i].count + sum_counts(
            s.subrange(i + 1, s.len() as int),
        ),
{
    let t = s.subrange(i, s.len() as int);
    assert(t[0] == s[i]);
    assert(t.subrange(1, t.len() as int) =~= s.subrange(i + 1, s.len() as int));
}

/// Each entry's count is at most the sum of all counts.
proof fn lemma_sum_le_at(s: Seq<ItemEntry>, i: int)
    requires
        0 <= i < s.len(),
    ensures
        s[i].count <= sum_counts(s),
    decreases s.len(),
{
    if i > 0 {
        lemma_sum_le_at(s.subrange(1, s.len() as int), i - 1);
    }
}

/// Every well-formed inventory keeps the sum of its item counts at or below
/// its capacity; the OMEN balance is unsigned and therefore never negative.
pub proof fn lemma_inventory_bounds(inv: &Inventory)
    requires
        inv.wf(),
    ensures
        inv.spec_total() <= inv.max_capacity,
        inv.omen_balance >= 0,
{
}

} // verus!

//! Persistence records: the plain values saved for a player and the
//! verified restore path.  The store itself (a relational database) lives
//! outside the library; it receives and returns these records.

use vstd::prelude::*;

use crate::config;
use crate::inventory::{count_of, sum_counts, unique_keys, Inventory, ItemEntry};
use crate::quest::QuestProgress;

verus! {

/// One persisted equipment slot.
pub struct EquipmentSlotRecord {
    pub slot_type: String,
    pub item_type: String,
}

/// Everything persisted for one player.
pub struct PlayerSaveData {
    pub account_id: Option<i64>,
    pub player_id: u32,
    pub name: String,
    pub level: u32,
    pub xp: u64,
    /// Balance, centi-OMEN.
    pub omen_balance_centi: u64,
    pub zone_id: String,
    /// Position, milli-units.
    pub x: i64,
    pub y: i64,
    pub hp: u64,
    pub shield: u64,
    pub inventory_items: Vec<ItemEntry>,
    pub equipment_slots: Vec<EquipmentSlotRecord>,
    pub quest_progress: Vec<QuestProgress>,
}

/// Clamp restored vitals to the current maxima: a loaded player's hit
/// points and shield never exceed what the ship now supports.
pub fn clamp_restored_vitals(hp: u64, shield: u64, max_hp: u64, max_shield: u64) -> (r: (u64, u64))
    ensures
        r.0 == if hp < max_hp {
            hp
        } else {
            max_hp
        },
        r.1 == if shield < max_shield {
            shield
        } else {
            max_shield
        },
        r.0 <= max_hp,
        r.1 <= max_shield,
{
    let h = if hp < max_hp {
        hp
    } else {
        max_hp
    };
    let s = if shield < max_shield {
        shield
    } else {
        max_shield
    };
    (h, s)
}

/// Rebuild an inventory from persisted entries and a balance.  When the
/// entries have distinct keys, positive counts, and fit the capacity —
/// which every saved well-formed inventory satisfies — the rebuilt
/// inventory holds exactly the same counts.
pub fn restore_inventory(omen_balance_centi: u64, items: &Vec<ItemEntry>) -> (r: Inventory)
    ensures
        r.wf(),
        r.max_capacity == config::INVENTORY_CAPACITY,
        r.omen_balance == omen_balance_centi,
        (unique_keys(items@) && (forall|i: int|
            0 <= i < items@.len() ==> (#[trigger] items@[i]).count > 0) && sum_counts(items@)
            <= config::INVENTORY_CAPACITY) ==> (forall|k: Seq<char>|
            #[trigger] r.spec_get(k) == count_of(items@, k)),
{
    let mut inv = Inventory::new(config::INVENTORY_CAPACITY);
    inv.omen_balance = omen_balance_centi;
    let ghost good = unique_keys(items@) && (forall|i: int|
        0 <= i < items@.len() ==> (#[trigger] items@[i]).count > 0) && sum_counts(items@)
        <= config::INVENTORY_CAPACITY;
    let n = items.len();
    proof {
        assert(items@.subrange(0, 0) =~= Seq::<ItemEntry>::empty());
    }
    for i in 0..n
        invariant
            n == items@.len(),
            inv.wf(),
            inv.max_capacity == config::INVENTORY_CAPACITY,
            inv.omen_balance == omen_balance_centi,
            good == (unique_keys(items@) && (forall|t: int|
                0 <= t < items@.len() ==> (#[trigger] items@[t]).count > 0) && sum_counts(items@)
                <= config::INVENTORY_CAPACITY),
            good ==> inv.spec_total() == sum_counts(items@.subrange(0, i as int)),
            good ==> (forall|k: Seq<char>|
                #[trigger] inv.spec_get(k) == count_of(items@.subrange(0, i as int), k)),
    {
        let entry = &items[i];
        proof {
            if good {
                lemma_sum_prefix_step(items@, i as int);
                lemma_sum_prefix_le(items@, i as int);
                lemma_count_prefix_step(items@, i as int);
                // The key is new to the prefix, so its current count is zero.
                assert(count_of(items@.subrange(0, i as int), items@[i as int].item@) == 0) by {
                    lemma_count_absent_prefix(items@, i as int);
                }
            }
        }
        inv.add(entry_item(items, i), entry.count);
    }
    proof {
        if good {
            assert(items@.subrange(0, n as int) =~= items@);
        }
    }
    inv
}

fn entry_item<'a>(items: &'a Vec<ItemEntry>, i: usize) -> (r: &'a str)
    requires
        i < items@.len(),
    ensures
        r@ == items@[i as int].item@,
{
    items[i].item.as_str()
}

proof fn lemma_sum_prefix_step(s: Seq<ItemEntry>, i: int)
    requires
        0 <= i < s.len(),
    ensures
        sum_counts(s.subrange(0, i + 1)) == sum_counts(s.subrange(0, i)) + s[i].count,
    decreases i,
{
    if i == 0 {
        assert(s.subrange(0, 1)[0] == s[0]);
        assert(s.subrange(0, 1).subrange(1, 1) =~= Seq::<ItemEntry>::empty());
        assert(s.subrange(0, 0) =~= Seq::<ItemEntry>::empty());
    } else {
        let a = s.subrange(0, i + 1);
        let b = s.subrange(0, i);
        assert(a[0] == s[0] && b[0] == s[0]);
        assert(a.subrange(1, a.len() as int) =~= s.subrange(1, s.len() as int).subrange(0, i));
        assert(b.subrange(1, b.len() as int) =~= s.subrange(1, s.len() as int).subrange(0, i - 1));
        lemma_sum_prefix_step(s.subrange(1, s.len() as int), i - 1);
    }
}

proof fn lemma_sum_prefix_le(s: Seq<ItemEntry>, i: int)
    requires
        0 <= i < s.len(),
    ensures
        sum_counts(s.subrange(0, i)) + s[i].count <= sum_counts(s),
    decreases s.len(),
{
    lemma_sum_prefix_all(s, i + 1);
    lemma_sum_prefix_step(s, i);
}

proof fn lemma_sum_prefix_all(s: Seq<ItemEntry>, i: int)
    requires
        0 <= i <= s.len(),
    ensures
        sum_counts(s.subrange(0, i)) <= sum_counts(s),
    decreases s.len() - i,
{
    if i == s.len() {
        assert(s.subrange(0, i) =~= s);
    } else {
        lemma_sum_prefix_step(s, i);
        lemma_sum_prefix_all(s, i + 1);
    }
}

proof fn lemma_count_prefix_step(s: Seq<ItemEntry>, i: int)
    requires
        0 <= i < s.len(),
        unique_keys(s),
    ensures
        forall|k: Seq<char>|
            #[trigger] count_of(s.subrange(0, i + 1), k) == count_of(s.subrange(0, i), k) + (
            if s[i].item@ == k {
                s[i].count as nat
            } else {
                0nat
            }),
    decreases i,
{
    assert forall|k: Seq<char>| #[trigger] count_of(s.subrange(0, i + 1), k) == count_of(
        s.subrange(0, i),
        k,
    ) + (if s[i].item@ == k {
        s[i].count as nat
    } else {
        0nat
    }) by {
        lemma_count_prefix_step_one(s, i, k);
    }
}

proof fn lemma_count_prefix_step_one(s: Seq<ItemEntry>, i: int, k: Seq<char>)
    requires
        0 <= i < s.len(),
        unique_keys(s),
    ensures
        count_of(s.subrange(0, i + 1), k) == count_of(s.subrange(0, i), k) + (if s[i].item@ == k {
            s[i].count as nat
        } else {
            0nat
        }),
    decreases i,
{
    if i == 0 {
        assert(s.subrange(0, 1)[0] == s[0]);
        assert(s.subrange(0, 1).subrange(1, 1) =~= Seq::<ItemEntry>::empty());
        assert(s.subrange(0, 0) =~= Seq::<ItemEntry>::empty());
    } else {
        let a = s.subrange(0, i + 1);
        let b = s.subrange(0, i);
        assert(a[0] == s[0] && b[0] == s[0]);
        assert(a.subrange(1, a.len() as int) =~= s.subrange(1, s.len() as int).subrange(0, i));
        assert(b.subrange(1, b.len() as int) =~= s.subrange(1, s.len() as int).subrange(0, i - 1));
        assert(unique_keys(s.subrange(1, s.len() as int)));
        lemma_count_prefix_step_one(s.subrange(1, s.len() as int), i - 1, k);
    }
}

proof fn lemma_count_absent_prefix(s: Seq<ItemEntry>, i: int)
    requires
        0 <= i < s.len(),
        unique_keys(s),
    ensures
        count_of(s.subrange(0, i), s[i].item@) == 0,
{
    let p = s.subrange(0, i);
    assert forall|j: int| 0 <= j < p.len() implies (#[trigger] p[j]).item@ != s[i].item@ by {
        assert(p[j] == s[j]);
    }
    lemma_count_absent_seq(p, s[i].item@);
}

proof fn lemma_count_absent_seq(s: Seq<ItemEntry>, k: Seq<char>)
    requires
        forall|j: int| 0 <= j < s.len() ==> (#[trigger] s[j]).item@ != k,
    ensures
        count_of(s, k) == 0,
    decreases s.len(),
{
    if s.len() > 0 {
        lemma_count_absent_seq(s.subrange(1, s.len() as int), k);
    }
}

/// Saving and loading a player round-trips: restoring a well-formed
/// inventory's saved entries rebuilds exactly the same counts and
/// balance, and restored hit points and shield are the saved values
/// clamped to the current maxima.
pub proof fn lemma_save_restore_inventory(saved: Inventory, restored: Inventory)
    requires
        saved.wf(),
        saved.max_capacity == config::INVENTORY_CAPACITY,
        restored.wf(),
        restored.omen_balance == saved.omen_balance,
        forall|k: Seq<char>| #[trigger] restored.spec_get(k) == count_of(saved.items@, k),
    ensures
        forall|k: Seq<char>| #[trigger] restored.spec_get(k) == saved.spec_get(k),
        restored.omen_balance == saved.omen_balance,
{
}

} // verus!

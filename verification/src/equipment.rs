//! Ship equipment: seven slots, an item database mapping item keys to
//! slots and stat modifiers, and aggregate stat computation.
//!
//! Percentage bonuses are in hundredths of a fraction (50 means +50 %);
//! the armor bonus is flat, in centi hit points.

use vstd::prelude::*;

use crate::util::str_eq;

verus! {

#[derive(Clone, Copy, PartialEq, Eq, Structural, Debug, Hash)]
pub enum EquipmentSlotType {
    Weapon1,
    Weapon2,
    Shield,
    Engine,
    MiningLaser,
    Armor,
    Utility,
}

/// The slot's index in a slot table.
pub open spec fn spec_slot_index(s: EquipmentSlotType) -> int {
    match s {
        EquipmentSlotType::Weapon1 => 0,
        EquipmentSlotType::Weapon2 => 1,
        EquipmentSlotType::Shield => 2,
        EquipmentSlotType::Engine => 3,
        EquipmentSlotType::MiningLaser => 4,
        EquipmentSlotType::Armor => 5,
        EquipmentSlotType::Utility => 6,
    }
}

impl EquipmentSlotType {
    /// The slot's index in a slot table.
    pub fn index(self) -> (r: usize)
        ensures
            r == spec_slot_index(self),
            r < 7,
    {
        match self {
            EquipmentSlotType::Weapon1 => 0,
            EquipmentSlotType::Weapon2 => 1,
            EquipmentSlotType::Shield => 2,
            EquipmentSlotType::Engine => 3,
            EquipmentSlotType::MiningLaser => 4,
            EquipmentSlotType::Armor => 5,
            EquipmentSlotType::Utility => 6,
        }
    }

    pub fn as_str(&self) -> (r: &'static str)
        ensures
            (*self is Weapon1 ==> r@ == "weapon1"@),
            (*self is Weapon2 ==> r@ == "weapon2"@),
            (*self is Shield ==> r@ == "shield"@),
            (*self is Engine ==> r@ == "engine"@),
            (*self is MiningLaser ==> r@ == "mining_laser"@),
            (*self is Armor ==> r@ == "armor"@),
            (*self is Utility ==> r@ == "utility"@),
    {
        match self {
            EquipmentSlotType::Weapon1 => "weapon1",
            EquipmentSlotType::Weapon2 => "weapon2",
            EquipmentSlotType::Shield => "shield",
            EquipmentSlotType::Engine => "engine",
            EquipmentSlotType::MiningLaser => "mining_laser",
            EquipmentSlotType::Armor => "armor",
            EquipmentSlotType::Utility => "utility",
        }
    }

    pub fn from_str(s: &str) -> (r: Option<Self>)
        ensures
            (s@ == "weapon1"@ ==> r == Some(EquipmentSlotType::Weapon1)),
            (s@ == "weapon2"@ ==> r == Some(EquipmentSlotType::Weapon2)),
            (s@ == "shield"@ ==> r == Some(EquipmentSlotType::Shield)),
            (s@ == "engine"@ ==> r == Some(EquipmentSlotType::Engine)),
            (s@ == "mining_laser"@ ==> r == Some(EquipmentSlotType::MiningLaser)),
            (s@ == "armor"@ ==> r == Some(EquipmentSlotType::Armor)),
            (s@ == "utility"@ ==> r == Some(EquipmentSlotType::Utility)),
            r is None ==> s@ != "weapon1"@ && s@ != "weapon2"@ && s@ != "shield"@ && s@
                != "engine"@ && s@ != "mining_laser"@ && s@ != "armor"@ && s@ != "utility"@,
            // An unknown name yields nothing.
            (s@ != "weapon1"@ && s@ != "weapon2"@ && s@ != "shield"@ && s@ != "engine"@ && s@
                != "mining_laser"@ && s@ != "armor"@ && s@ != "utility"@) ==> r is None,
    {
        proof {
            reveal_strlit("weapon1");
            reveal_strlit("weapon2");
            reveal_strlit("shield");
            reveal_strlit("engine");
            reveal_strlit("mining_laser");
            reveal_strlit("armor");
            reveal_strlit("utility");
            assert(("weapon1"@).len() == 7);
            assert(("weapon2"@).len() == 7);
            assert(("shield"@).len() == 6);
            assert(("engine"@).len() == 6);
            assert(("mining_laser"@).len() == 12);
            assert(("armor"@).len() == 5);
            assert(("utility"@).len() == 7);
            assert(("weapon1"@)[6] == '1');
            assert(("weapon2"@)[6] == '2');
            assert(("utility"@)[0] == 'u');
            assert(("weapon1"@)[0] == 'w');
            assert(("weapon2"@)[0] == 'w');
            assert(("shield"@)[0] == 's');
            assert(("engine"@)[0] == 'e');
        }
        if str_eq(s, "weapon1") {
            Some(EquipmentSlotType::Weapon1)
        } else if str_eq(s, "weapon2") {
            Some(EquipmentSlotType::Weapon2)
        } else if str_eq(s, "shield") {
            Some(EquipmentSlotType::Shield)
        } else if str_eq(s, "engine") {
            Some(EquipmentSlotType::Engine)
        } else if str_eq(s, "mining_laser") {
            Some(EquipmentSlotType::MiningLaser)
        } else if str_eq(s, "armor") {
            Some(EquipmentSlotType::Armor)
        } else if str_eq(s, "utility") {
            Some(EquipmentSlotType::Utility)
        } else {
            None
        }
    }
}

/// The seven slots in table order.
pub fn all_slots() -> (r: Vec<EquipmentSlotType>)
    ensures
        r@.len() == 7,
        forall|i: int| 0 <= i < 7 ==> spec_slot_index(#[trigger] r@[i]) == i,
{
    let mut v: Vec<EquipmentSlotType> = Vec::new();
    v.push(EquipmentSlotType::Weapon1);
    v.push(EquipmentSlotType::Weapon2);
    v.push(EquipmentSlotType::Shield);
    v.push(EquipmentSlotType::Engine);
    v.push(EquipmentSlotType::MiningLaser);
    v.push(EquipmentSlotType::Armor);
    v.push(EquipmentSlotType::Utility);
    v
}

/// Stat bonuses of one item, or their sum over equipped items.
#[derive(Clone, Copy, PartialEq, Eq, Structural, Debug)]
pub struct StatModifiers {
    /// Damage bonus, hundredths of a fraction.
    pub damage: u64,
    /// Range bonus, hundredths of a fraction.
    pub range: u64,
    /// Shield bonus, hundredths of a fraction.
    pub shield_bonus: u64,
    /// Speed bonus, hundredths of a fraction.
    pub speed_bonus: u64,
    /// Mining bonus, hundredths of a fraction.
    pub mining_bonus: u64,
    /// Flat armor bonus, centi hit points.
    pub armor_bonus: u64,
    /// Cargo bonus, hundredths of a fraction.
    pub cargo_bonus: u64,
}

impl StatModifiers {
    pub fn zero() -> (r: Self)
        ensures
            r == (StatModifiers {
                damage: 0u64,
                range: 0u64,
                shield_bonus: 0u64,
                speed_bonus: 0u64,
                mining_bonus: 0u64,
                armor_bonus: 0u64,
                cargo_bonus: 0u64,
            }),
    {
        StatModifiers {
            damage: 0,
            range: 0,
            shield_bonus: 0,
            speed_bonus: 0,
            mining_bonus: 0,
            armor_bonus: 0,
            cargo_bonus: 0,
        }
    }

    /// Accumulate another set of modifiers into this one.
    pub fn add(&mut self, other: &StatModifiers)
        requires
            old(self).damage + other.damage <= u64::MAX,
            old(self).range + other.range <= u64::MAX,
            old(self).shield_bonus + other.shield_bonus <= u64::MAX,
            old(self).speed_bonus + other.speed_bonus <= u64::MAX,
            old(self).mining_bonus + other.mining_bonus <= u64::MAX,
            old(self).armor_bonus + other.armor_bonus <= u64::MAX,
            old(self).cargo_bonus + other.cargo_bonus <= u64::MAX,
        ensures
            final(self).damage == old(self).damage + other.damage,
            final(self).range == old(self).range + other.range,
            final(self).shield_bonus == old(self).shield_bonus + other.shield_bonus,
            final(self).speed_bonus == old(self).speed_bonus + other.speed_bonus,
            final(self).mining_bonus == old(self).mining_bonus + other.mining_bonus,
            final(self).armor_bonus == old(self).armor_bonus + other.armor_bonus,
            final(self).cargo_bonus == old(self).cargo_bonus + other.cargo_bonus,
    {
        self.damage = self.damage + other.damage;
        self.range = self.range + other.range;
        self.shield_bonus = self.shield_bonus + other.shield_bonus;
        self.speed_bonus = self.speed_bonus + other.speed_bonus;
        self.mining_bonus = self.mining_bonus + other.mining_bonus;
        self.armor_bonus = self.armor_bonus + other.armor_bonus;
        self.cargo_bonus = self.cargo_bonus + other.cargo_bonus;
    }
}

/// One equippable item: its inventory key, its slot, and its bonuses.
pub struct EquipmentItem {
    pub item_type: String,
    pub slot_type: EquipmentSlotType,
    pub stats: StatModifiers,
    pub name: String,
}

impl Clone for EquipmentItem {
    fn clone(&self) -> (r: Self)
        ensures
            r.item_type == self.item_type,
            r.slot_type == self.slot_type,
            r.stats == self.stats,
            r.name == self.name,
    {
        EquipmentItem {
            item_type: self.item_type.clone(),
            slot_type: self.slot_type,
            stats: self.stats,
            name: self.name.clone(),
        }
    }
}

/// Every database entry's bonus stays small, so seven of them sum without
/// overflow.
pub open spec fn equip_item_wf(e: EquipmentItem) -> bool {
    &&& e.stats.damage <= 100_000
    &&& e.stats.range <= 100_000
    &&& e.stats.shield_bonus <= 100_000
    &&& e.stats.speed_bonus <= 100_000
    &&& e.stats.mining_bonus <= 100_000
    &&& e.stats.armor_bonus <= 100_000
    &&& e.stats.cargo_bonus <= 100_000
}

fn make_item(
    item_type: &str,
    slot_type: EquipmentSlotType,
    stats: StatModifiers,
    name: &str,
) -> (r: EquipmentItem)
    requires
        stats.damage <= 100_000,
        stats.range <= 100_000,
        stats.shield_bonus <= 100_000,
        stats.speed_bonus <= 100_000,
        stats.mining_bonus <= 100_000,
        stats.armor_bonus <= 100_000,
        stats.cargo_bonus <= 100_000,
    ensures
        r.item_type@ == item_type@,
        r.slot_type == slot_type,
        r.stats == stats,
        equip_item_wf(r),
{
    EquipmentItem { item_type: item_type.to_owned(), slot_type, stats, name: name.to_owned() }
}

/// The equipment database: every equippable item with its slot and stats.
pub fn equipment_database() -> (r: Vec<EquipmentItem>)
    ensures
        r@.len() == 8,
        forall|i: int| 0 <= i < r@.len() ==> equip_item_wf(#[trigger] r@[i]),
        r@[0].item_type@ == "mining_laser"@ && r@[0].slot_type is MiningLaser,
        r@[1].item_type@ == "thruster"@ && r@[1].slot_type is Engine,
        r@[2].item_type@ == "hull_panel"@ && r@[2].slot_type is Armor,
        r@[3].item_type@ == "basic_circuit"@ && r@[3].slot_type is Utility,
        r@[4].item_type@ == "iron_plate"@ && r@[4].slot_type is Armor,
        r@[5].item_type@ == "copper_wire"@ && r@[5].slot_type is Utility,
        r@[6].item_type@ == "silicon_wafer"@ && r@[6].slot_type is Utility,
        r@[7].item_type@ == "carbon_fiber"@ && r@[7].slot_type is Armor,
{
    let mut items: Vec<EquipmentItem> = Vec::new();
    let mut s = StatModifiers::zero();
    s.mining_bonus = 50;
    items.push(make_item("mining_laser", EquipmentSlotType::MiningLaser, s, "Mining Laser Mk1"));
    let mut s = StatModifiers::zero();
    s.speed_bonus = 20;
    items.push(make_item("thruster", EquipmentSlotType::Engine, s, "Thruster Mk1"));
    let mut s = StatModifiers::zero();
    s.armor_bonus = 2500;
    items.push(make_item("hull_panel", EquipmentSlotType::Armor, s, "Hull Panel"));
    let mut s = StatModifiers::zero();
    s.damage = 10;
    s.shield_bonus = 10;
    s.speed_bonus = 10;
    s.mining_bonus = 10;
    s.armor_bonus = 10;
    s.cargo_bonus = 10;
    items.push(make_item("basic_circuit", EquipmentSlotType::Utility, s, "Basic Circuit"));
    let mut s = StatModifiers::zero();
    s.armor_bonus = 1000;
    items.push(make_item("iron_plate", EquipmentSlotType::Armor, s, "Iron Plate"));
    let mut s = StatModifiers::zero();
    s.range = 5;
    items.push(make_item("copper_wire", EquipmentSlotType::Utility, s, "Copper Wire"));
    let mut s = StatModifiers::zero();
    s.mining_bonus = 10;
    items.push(make_item("silicon_wafer", EquipmentSlotType::Utility, s, "Silicon Wafer"));
    let mut s = StatModifiers::zero();
    s.armor_bonus = 1500;
    s.speed_bonus = 5;
    items.push(make_item("carbon_fiber", EquipmentSlotType::Armor, s, "Carbon Fiber"));
    items
}

/// Look an equippable item up by its inventory key.
pub fn lookup_equipment(item_type: &str) -> (r: Option<EquipmentItem>)
    ensures
        r is Some ==> r->0.item_type@ == item_type@ && equip_item_wf(r->0),
{
    let db = equipment_database();
    let n = db.len();
    for i in 0..n
        invariant
            n == db@.len(),
            forall|j: int| 0 <= j < db@.len() ==> equip_item_wf(#[trigger] db@[j]),
    {
        if str_eq(db[i].item_type.as_str(), item_type) {
            return Some(db[i].clone());
        }
    }
    None
}

pub struct EquipResult {
    pub success: bool,
    pub old_item: Option<String>,
    pub error: Option<String>,
}

pub struct UnequipResult {
    pub removed_item: Option<String>,
    pub error: Option<String>,
}

/// A player's seven equipment slots.
pub struct PlayerEquipment {
    pub slots: Vec<Option<EquipmentItem>>,
}

impl PlayerEquipment {
    /// Exactly seven slots; an occupied slot holds an item of its own
    /// slot type with database-bounded stats.
    pub open spec fn wf(&self) -> bool {
        &&& self.slots@.len() == 7
        &&& forall|i: int|
            0 <= i < 7 ==> ((#[trigger] self.slots@[i]) is Some ==> spec_slot_index(
                self.slots@[i]->0.slot_type,
            ) == i && equip_item_wf(self.slots@[i]->0))
    }

    pub fn new() -> (r: Self)
        ensures
            r.wf(),
            forall|i: int| 0 <= i < 7 ==> (#[trigger] r.slots@[i]) is None,
    {
        let mut slots: Vec<Option<EquipmentItem>> = Vec::new();
        let mut k: usize = 0;
        while k < 7
            invariant
                k <= 7,
                slots@.len() == k,
                forall|i: int| 0 <= i < k ==> (#[trigger] slots@[i]) is None,
            decreases 7 - k,
        {
            slots.push(None);
            k = k + 1;
        }
        PlayerEquipment { slots }
    }

    /// Equip an item into its slot; returns the item it replaced, if any.
    /// Fails exactly when the key names nothing equippable.
    pub fn equip(&mut self, item_type: &str) -> (r: EquipResult)
        requires
            old(self).wf(),
        ensures
            final(self).wf(),
            !r.success ==> *final(self) == *old(self) && r.error is Some && r.old_item is None,
            r.success ==> r.error is None && (exists|i: int|
                0 <= i < 7
                && (#[trigger] final(self).slots@[i]) is Some
                && final(self).slots@[i]->0.item_type@ == item_type@
                && (forall|j: int|
                    0 <= j < 7 && j != i ==> #[trigger] final(self).slots@[j] == old(self).slots@[j])
                && (match r.old_item {
                    Some(prev) => old(self).slots@[i] is Some && prev@ == old(self).slots@[i]->0.item_type@,
                    None => old(self).slots@[i] is None,
                })),
    {
        let def = match lookup_equipment(item_type) {
            Some(d) => d,
            None => {
                return EquipResult {
                    success: false,
                    old_item: None,
                    error: Some("Item is not equippable".to_owned()),
                };
            },
        };
        let idx = def.slot_type.index();
        let old_item = match &self.slots[idx] {
            Some(cur) => Some(cur.item_type.clone()),
            None => None,
        };
        self.slots[idx] = Some(def);
        EquipResult { success: true, old_item, error: None }
    }

    /// Remove the item from a slot; fails exactly when the slot is empty.
    pub fn unequip(&mut self, slot_type: EquipmentSlotType) -> (r: UnequipResult)
        requires
            old(self).wf(),
        ensures
            final(self).wf(),
            r.removed_item is Some <==> old(self).slots@[spec_slot_index(slot_type)] is Some,
            r.removed_item is None ==> *final(self) == *old(self) && r.error is Some,
            r.removed_item is Some ==> {
                &&& r.removed_item->0@ == old(self).slots@[spec_slot_index(slot_type)]->0.item_type@
                &&& final(self).slots@[spec_slot_index(slot_type)] is None
                &&& forall|j: int|
                    0 <= j < 7 && j != spec_slot_index(slot_type)
                        ==> #[trigger] final(self).slots@[j] == old(self).slots@[j]
                &&& r.error is None
            },
    {
        let idx = slot_type.index();
        match &self.slots[idx] {
            Some(cur) => {
                let removed = cur.item_type.clone();
                self.slots[idx] = None;
                UnequipResult { removed_item: Some(removed), error: None }
            },
            None => UnequipResult {
                removed_item: None,
                error: Some("Slot is already empty".to_owned()),
            },
        }
    }

    /// The item in a slot, if any.
    pub fn get_slot(&self, slot_type: EquipmentSlotType) -> (r: Option<EquipmentItem>)
        requires
            self.wf(),
        ensures
            r is Some <==> self.slots@[spec_slot_index(slot_type)] is Some,
            r is Some ==> {
                let cur = self.slots@[spec_slot_index(slot_type)]->0;
                &&& r->0.item_type == cur.item_type
                &&& r->0.slot_type == cur.slot_type
                &&& r->0.stats == cur.stats
            },
    {
        let idx = slot_type.index();
        match &self.slots[idx] {
            Some(cur) => Some(cur.clone()),
            None => None,
        }
    }

    /// Sum of the stat bonuses over all occupied slots.
    pub fn get_aggregate_stats(&self) -> (r: StatModifiers)
        requires
            self.wf(),
        ensures
            r.damage <= 700_000,
            r.range <= 700_000,
            r.shield_bonus <= 700_000,
            r.speed_bonus <= 700_000,
            r.mining_bonus <= 700_000,
            r.armor_bonus <= 700_000,
            r.cargo_bonus <= 700_000,
            r.damage == spec_sum_damage(self.slots@),
            r.shield_bonus == spec_sum_shield(self.slots@),
            r.speed_bonus == spec_sum_speed(self.slots@),
            r.mining_bonus == spec_sum_mining(self.slots@),
            r.armor_bonus == spec_sum_armor(self.slots@),
            r.cargo_bonus == spec_sum_cargo(self.slots@),
    {
        let mut totals = StatModifiers::zero();
        let n = self.slots.len();
        let ghost s = self.slots@;
        proof {
            assert(s.subrange(0, s.len() as int) =~= s);
        }
        for i in 0..n
            invariant
                n == s.len(),
                n == 7,
                s == self.slots@,
                self.wf(),
                totals.damage + spec_sum_damage(s.subrange(i as int, s.len() as int))
                    == spec_sum_damage(s),
                totals.range + spec_sum_range(s.subrange(i as int, s.len() as int))
                    == spec_sum_range(s),
                totals.shield_bonus + spec_sum_shield(s.subrange(i as int, s.len() as int))
                    == spec_sum_shield(s),
                totals.speed_bonus + spec_sum_speed(s.subrange(i as int, s.len() as int))
                    == spec_sum_speed(s),
                totals.mining_bonus + spec_sum_mining(s.subrange(i as int, s.len() as int))
                    == spec_sum_mining(s),
                totals.armor_bonus + spec_sum_armor(s.subrange(i as int, s.len() as int))
                    == spec_sum_armor(s),
                totals.cargo_bonus + spec_sum_cargo(s.subrange(i as int, s.len() as int))
                    == spec_sum_cargo(s),
                totals.damage <= i * 100_000,
                totals.range <= i * 100_000,
                totals.shield_bonus <= i * 100_000,
                totals.speed_bonus <= i * 100_000,
                totals.mining_bonus <= i * 100_000,
                totals.armor_bonus <= i * 100_000,
                totals.cargo_bonus <= i * 100_000,
        {
            proof {
                assert(s.subrange(i as int, s.len() as int)[0] == s[i as int]);
                assert(s.subrange(i as int, s.len() as int).subrange(
                    1,
                    s.subrange(i as int, s.len() as int).len() as int,
                ) =~= s.subrange(i + 1, s.len() as int));
            }
            match &self.slots[i] {
                Some(item) => {
                    totals.add(&item.stats);
                },
                None => {},
            }
        }
        proof {
            assert(s.subrange(s.len() as int, s.len() as int) =~= Seq::<Option<EquipmentItem>>::empty());
        }
        totals
    }
}

/// Per-field sums of the equipped items' bonuses.
pub open spec fn spec_sum_damage(s: Seq<Option<EquipmentItem>>) -> nat
    decreases s.len(),
{
    if s.len() == 0 {
        0
    } else {
        ((match s[0] {
            Some(e) => e.stats.damage as nat,
            None => 0,
        }) + spec_sum_damage(s.subrange(1, s.len() as int))) as nat
    }
}

pub open spec fn spec_sum_range(s: Seq<Option<EquipmentItem>>) -> nat
    decreases s.len(),
{
    if s.len() == 0 {
        0
    } else {
        ((match s[0] {
            Some(e) => e.stats.range as nat,
            None => 0,
        }) + spec_sum_range(s.subrange(1, s.len() as int))) as nat
    }
}

pub open spec fn spec_sum_shield(s: Seq<Option<EquipmentItem>>) -> nat
    decreases s.len(),
{
    if s.len() == 0 {
        0
    } else {
        ((match s[0] {
            Some(e) => e.stats.shield_bonus as nat,
            None => 0,
        }) + spec_sum_shield(s.subrange(1, s.len() as int))) as nat
    }
}

pub open spec fn spec_sum_speed(s: Seq<Option<EquipmentItem>>) -> nat
    decreases s.len(),
{
    if s.len() == 0 {
        0
    } else {
        ((match s[0] {
            Some(e) => e.stats.speed_bonus as nat,
            None => 0,
        }) + spec_sum_speed(s.subrange(1, s.len() as int))) as nat
    }
}

pub open spec fn spec_sum_mining(s: Seq<Option<EquipmentItem>>) -> nat
    decreases s.len(),
{
    if s.len() == 0 {
        0
    } else {
        ((match s[0] {
            Some(e) => e.stats.mining_bonus as nat,
            None => 0,
        }) + spec_sum_mining(s.subrange(1, s.len() as int))) as nat
    }
}

pub open spec fn spec_sum_armor(s: Seq<Option<EquipmentItem>>) -> nat
    decreases s.len(),
{
    if s.len() == 0 {
        0
    } else {
        ((match s[0] {
            Some(e) => e.stats.armor_bonus as nat,
            None => 0,
        }) + spec_sum_armor(s.subrange(1, s.len() as int))) as nat
    }
}

pub open spec fn spec_sum_cargo(s: Seq<Option<EquipmentItem>>) -> nat
    decreases s.len(),
{
    if s.len() == 0 {
        0
    } else {
        ((match s[0] {
            Some(e) => e.stats.cargo_bonus as nat,
            None => 0,
        }) + spec_sum_cargo(s.subrange(1, s.len() as int))) as nat
    }
}

} // verus!

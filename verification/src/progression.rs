//! Player progression: experience, levels 1 to 50, and skill points.

use vstd::prelude::*;

verus! {

/// Highest reachable level; XP is zeroed once it is reached.
pub const MAX_LEVEL: u32 = 50;

/// XP gained per resource unit mined.
pub const XP_REWARD_MINING: u64 = 1;
/// XP gained per craft completed.
pub const XP_REWARD_CRAFTING: u64 = 10;
/// XP gained per combat kill.
pub const XP_REWARD_COMBAT_KILL: u64 = 50;

/// XP needed to go from `level` to `level + 1`: `100·level + 50·level²`.
pub open spec fn spec_xp_for_next_level(level: nat) -> nat {
    100 * level + 50 * (level * level)
}

/// Calculate the XP required to advance from the given level.
pub fn xp_for_next_level(level: u32) -> (r: u64)
    requires
        level <= MAX_LEVEL,
    ensures
        r == spec_xp_for_next_level(level as nat),
{
    let l = level as u64;
    assert(l * l <= 2500) by (nonlinear_arith)
        requires
            l <= 50,
    ;
    let sq = l * l;
    100 * l + 50 * sq
}

/// Notification data for one gained level.
pub struct LevelUpPayload {
    pub level: u32,
    pub xp: u64,
    pub next_level_xp: u64,
    pub skill_points: u32,
}

/// The final (level, leftover xp) after repeatedly spending `xp` on level-ups
/// starting from `level`.
pub open spec fn spec_apply_levels(level: nat, xp: nat) -> (nat, nat)
    decreases MAX_LEVEL as nat - level,
{
    if level >= MAX_LEVEL as nat {
        (level, xp)
    } else if xp >= spec_xp_for_next_level(level) {
        spec_apply_levels(level + 1, (xp - spec_xp_for_next_level(level)) as nat)
    } else {
        (level, xp)
    }
}

pub struct PlayerProgression {
    pub level: u32,
    pub xp: u64,
    pub skill_points: u32,
    pub next_level_xp: u64,
}

impl PlayerProgression {
    /// A progression record is well formed when the level is in range, the
    /// cached next-level XP matches the formula, leftover XP is below the
    /// next threshold, and XP is zeroed at the level cap.
    pub open spec fn wf(&self) -> bool {
        &&& 1 <= self.level <= MAX_LEVEL
        &&& self.skill_points < self.level
        &&& self.level < MAX_LEVEL ==> {
            &&& self.next_level_xp == spec_xp_for_next_level(self.level as nat)
            &&& (self.xp as nat) < spec_xp_for_next_level(self.level as nat)
        }
        &&& self.level == MAX_LEVEL ==> self.xp == 0 && self.next_level_xp == 0
    }

    pub fn new() -> (r: Self)
        ensures
            r.wf(),
            r.level == 1,
            r.xp == 0,
            r.skill_points == 0,
    {
        PlayerProgression {
            level: 1,
            xp: 0,
            skill_points: 0,
            next_level_xp: xp_for_next_level(1),
        }
    }

    pub fn next_level_xp(&self) -> (r: u64)
        ensures
            r == self.next_level_xp,
    {
        self.next_level_xp
    }

    /// Award XP and process level-ups; one notification per level gained.
    /// Leftover XP carries forward, and at the cap XP is zeroed.
    pub fn add_xp(&mut self, amount: u64) -> (events: Vec<LevelUpPayload>)
        requires
            old(self).wf(),
            old(self).xp + amount <= u64::MAX,
        ensures
            final(self).wf(),
            final(self).skill_points == old(self).skill_points + events.len(),
            final(self).level == old(self).level + events.len(),
            amount == 0 || old(self).level == MAX_LEVEL ==> *final(self) == *old(self)
                && events.len() == 0,
            amount > 0 && old(self).level < MAX_LEVEL ==> {
                let after = spec_apply_levels(
                    old(self).level as nat,
                    (old(self).xp + amount) as nat,
                );
                &&& final(self).level == after.0
                &&& final(self).level < MAX_LEVEL ==> final(self).xp == after.1
                &&& final(self).level == MAX_LEVEL ==> final(self).xp == 0
            },
            forall|i: int| 0 <= i < events.len() ==> {
                &&& (#[trigger] events[i]).level == old(self).level + 1 + i
                &&& events[i].skill_points == old(self).skill_points + 1 + i
            },
    {
        let mut events: Vec<LevelUpPayload> = Vec::new();
        if amount == 0 {
            return events;
        }
        if self.level >= MAX_LEVEL {
            return events;
        }

        self.xp = self.xp + amount;

        let ghost start_level = self.level;
        let ghost start_points = self.skill_points;
        let ghost total = self.xp as nat;

        loop
            invariant
                1 <= start_level < MAX_LEVEL,
                start_points < start_level,
                1 <= self.level <= MAX_LEVEL,
                self.level < MAX_LEVEL ==> self.next_level_xp == spec_xp_for_next_level(
                    self.level as nat,
                ),
                self.level >= start_level,
                self.level - start_level == events.len(),
                self.skill_points == start_points + events.len(),
                spec_apply_levels(self.level as nat, self.xp as nat) == spec_apply_levels(
                    start_level as nat,
                    total,
                ),
                forall|i: int| 0 <= i < events.len() ==> {
                    &&& (#[trigger] events[i]).level == start_level + 1 + i
                    &&& events[i].skill_points == start_points + 1 + i
                },
            ensures
                self.xp < self.next_level_xp || self.level == MAX_LEVEL,
            decreases MAX_LEVEL - self.level,
        {
            if !(self.xp >= self.next_level_xp && self.level < MAX_LEVEL) {
                break;
            }
            self.xp = self.xp - self.next_level_xp;
            self.level = self.level + 1;
            self.skill_points = self.skill_points + 1;
            self.next_level_xp = xp_for_next_level(self.level);

            events.push(LevelUpPayload {
                level: self.level,
                xp: self.xp,
                next_level_xp: self.next_level_xp,
                skill_points: self.skill_points,
            });
        }

        proof {
            // The loop stopped either below the next threshold or at the cap,
            // so the iterate is now a fixed point of the level function.
            assert(spec_apply_levels(self.level as nat, self.xp as nat) == (
                self.level as nat,
                self.xp as nat,
            ));
        }

        if self.level >= MAX_LEVEL {
            self.xp = 0;
            self.next_level_xp = 0;
        }

        events
    }

    /// Spend one skill point; fails exactly when none is available.
    pub fn spend_skill_point(&mut self) -> (r: bool)
        ensures
            r == (old(self).skill_points > 0),
            r ==> final(self).skill_points == old(self).skill_points - 1,
            !r ==> *final(self) == *old(self),
            final(self).level == old(self).level,
            final(self).xp == old(self).xp,
            old(self).wf() ==> final(self).wf(),
    {
        if self.skill_points == 0 {
            return false;
        }
        self.skill_points = self.skill_points - 1;
        true
    }

    /// Snapshot of the progression state as a level-up payload.
    pub fn to_payload(&self) -> (r: LevelUpPayload)
        ensures
            r.level == self.level,
            r.xp == self.xp,
            r.next_level_xp == self.next_level_xp,
            r.skill_points == self.skill_points,
    {
        LevelUpPayload {
            level: self.level,
            xp: self.xp,
            next_level_xp: self.next_level_xp,
            skill_points: self.skill_points,
        }
    }
}


/// Final ship stats: hit points, shield and speeds computed from the
/// level and the equipment bonuses.  Speeds and capacities are whole
/// units; mining speed and damage are in hundredths.
pub struct ShipStats {
    pub max_hp: u64,
    pub max_shield: u64,
    /// Whole units per second.
    pub move_speed: u64,
    /// Hundredths of a unit per tick.
    pub mining_speed_centi: u64,
    pub cargo_capacity: u64,
    /// Hundredths of a damage point.
    pub damage_centi: u64,
}

/// Level multiplier in hundredths: one plus two percent per level above
/// one.
pub open spec fn spec_level_multiplier_centi(level: nat) -> nat {
    (100 + 2 * (level - 1)) as nat
}

pub open spec fn spec_max_hp(level: nat, armor_centi: nat) -> nat {
    (100 * spec_level_multiplier_centi(level) + armor_centi + 50) / 100
}

pub open spec fn spec_max_shield(level: nat, shield_bonus_centi: nat) -> nat {
    (50 * spec_level_multiplier_centi(level) * (100 + shield_bonus_centi) + 5000) / 10000
}

pub open spec fn spec_move_speed(level: nat, speed_bonus_centi: nat) -> nat {
    (600 * spec_level_multiplier_centi(level) * (100 + speed_bonus_centi) + 5000) / 10000
}

pub open spec fn spec_mining_speed_centi(level: nat, mining_bonus_centi: nat) -> nat {
    (10 * spec_level_multiplier_centi(level) * (100 + mining_bonus_centi) + 50) / 100
}

pub open spec fn spec_cargo_capacity(level: nat, cargo_bonus_centi: nat) -> nat {
    (200 * spec_level_multiplier_centi(level) * (100 + cargo_bonus_centi) + 5000) / 10000
}

pub open spec fn spec_damage_centi(level: nat, damage_bonus_centi: nat) -> nat {
    (10 * spec_level_multiplier_centi(level) * (100 + damage_bonus_centi) + 50) / 100
}

/// Compute the ship stats for a level and a set of aggregated equipment
/// bonuses: base stats grow two percent per level, percentage bonuses
/// multiply on top, and the armor bonus adds flat hit points; results are
/// rounded to the unit (or to hundredths for mining speed and damage).
pub fn calculate_ship_stats(level: u32, mods: &crate::equipment::StatModifiers) -> (r: ShipStats)
    requires
        1 <= level <= MAX_LEVEL,
        mods.damage <= 1_000_000,
        mods.shield_bonus <= 1_000_000,
        mods.speed_bonus <= 1_000_000,
        mods.mining_bonus <= 1_000_000,
        mods.armor_bonus <= 1_000_000,
        mods.cargo_bonus <= 1_000_000,
    ensures
        r.max_hp == spec_max_hp(level as nat, mods.armor_bonus as nat),
        r.max_shield == spec_max_shield(level as nat, mods.shield_bonus as nat),
        r.move_speed == spec_move_speed(level as nat, mods.speed_bonus as nat),
        r.mining_speed_centi == spec_mining_speed_centi(level as nat, mods.mining_bonus as nat),
        r.cargo_capacity == spec_cargo_capacity(level as nat, mods.cargo_bonus as nat),
        r.damage_centi == spec_damage_centi(level as nat, mods.damage as nat),
{
    let lvl_mul: u64 = 100 + 2 * (level as u64 - 1);
    proof {
        assert(lvl_mul <= 198);
        assert(lvl_mul * (100 + mods.shield_bonus) <= 198 * 1_000_100) by (nonlinear_arith)
            requires
                lvl_mul <= 198,
                mods.shield_bonus <= 1_000_000,
        ;
        assert(lvl_mul * (100 + mods.speed_bonus) <= 198 * 1_000_100) by (nonlinear_arith)
            requires
                lvl_mul <= 198,
                mods.speed_bonus <= 1_000_000,
        ;
        assert(lvl_mul * (100 + mods.mining_bonus) <= 198 * 1_000_100) by (nonlinear_arith)
            requires
                lvl_mul <= 198,
                mods.mining_bonus <= 1_000_000,
        ;
        assert(lvl_mul * (100 + mods.cargo_bonus) <= 198 * 1_000_100) by (nonlinear_arith)
            requires
                lvl_mul <= 198,
                mods.cargo_bonus <= 1_000_000,
        ;
        assert(lvl_mul * (100 + mods.damage) <= 198 * 1_000_100) by (nonlinear_arith)
            requires
                lvl_mul <= 198,
                mods.damage <= 1_000_000,
        ;
    }
    let max_hp = (100 * lvl_mul + mods.armor_bonus + 50) / 100;
    let max_shield = (50 * (lvl_mul * (100 + mods.shield_bonus)) + 5000) / 10000;
    let move_speed = (600 * (lvl_mul * (100 + mods.speed_bonus)) + 5000) / 10000;
    let mining_speed_centi = (10 * (lvl_mul * (100 + mods.mining_bonus)) + 50) / 100;
    let cargo_capacity = (200 * (lvl_mul * (100 + mods.cargo_bonus)) + 5000) / 10000;
    let damage_centi = (10 * (lvl_mul * (100 + mods.damage)) + 50) / 100;
    proof {
        assert(50 * (lvl_mul * (100 + mods.shield_bonus)) == 50 * lvl_mul * (100
            + mods.shield_bonus)) by (nonlinear_arith);
        assert(600 * (lvl_mul * (100 + mods.speed_bonus)) == 600 * lvl_mul * (100
            + mods.speed_bonus)) by (nonlinear_arith);
        assert(10 * (lvl_mul * (100 + mods.mining_bonus)) == 10 * lvl_mul * (100
            + mods.mining_bonus)) by (nonlinear_arith);
        assert(200 * (lvl_mul * (100 + mods.cargo_bonus)) == 200 * lvl_mul * (100
            + mods.cargo_bonus)) by (nonlinear_arith);
        assert(10 * (lvl_mul * (100 + mods.damage)) == 10 * lvl_mul * (100 + mods.damage))
            by (nonlinear_arith);
    }
    ShipStats { max_hp, max_shield, move_speed, mining_speed_centi, cargo_capacity, damage_centi }
}

/// Base ship stats: the stats of a level-one ship with nothing equipped.
pub fn base_ship_stats() -> (r: ShipStats)
    ensures
        r.max_hp == 100,
        r.max_shield == 50,
        r.move_speed == 600,
        r.mining_speed_centi == 1000,
        r.cargo_capacity == 200,
        r.damage_centi == 1000,
{
    ShipStats {
        max_hp: 100,
        max_shield: 50,
        move_speed: 600,
        mining_speed_centi: 1000,
        cargo_capacity: 200,
        damage_centi: 1000,
    }
}

} // verus!

//! NPC behaviour: the closed set of NPC kinds, their templates, the
//! shared behaviour state machine, and attack checks.
//!
//! Distances are in milli-units, hit points in whole points, times in
//! milliseconds; a flee threshold is a fraction in hundredths.

use vstd::prelude::*;

use crate::fixed::{dist_sq, isqrt, spec_dist_sq};
use crate::movement::scale_vector;
use crate::player::{PlayerState, WORLD_LIMIT_MILLI};
use crate::rng::random_in;

verus! {

#[derive(Clone, Copy, PartialEq, Eq, Structural, Debug, Hash)]
pub enum NPCType {
    Pirate,
    Trader,
    MiningDrone,
    BountyHunter,
    StationGuard,
}

#[derive(Clone, Copy, PartialEq, Eq, Structural, Debug)]
pub enum Faction {
    Hostile,
    Neutral,
    Friendly,
}

#[derive(Clone, Copy, PartialEq, Eq, Structural, Debug)]
pub enum BehaviorState {
    Idle,
    Patrol,
    Chase,
    Attack,
    Flee,
    Mine,
    ReturnToStation,
}

#[derive(Clone, Copy, PartialEq, Eq, Structural, Debug)]
pub struct NPCCombatStats {
    pub max_hp: u64,
    pub hp: u64,
    pub damage: u64,
    /// Attack reach, milli-units.
    pub attack_range_milli: i64,
    /// Time between attacks, milliseconds.
    pub attack_cooldown_ms: u64,
    /// Time left before the next attack, milliseconds.
    pub cooldown_timer_ms: u64,
}

pub struct LootDrop {
    pub item_type: String,
    pub quantity: u32,
    /// Drop chance in hundredths (100 = always).
    pub chance_centi: u32,
}

impl Clone for LootDrop {
    fn clone(&self) -> (r: Self)
        ensures
            r.item_type == self.item_type,
            r.quantity == self.quantity,
            r.chance_centi == self.chance_centi,
    {
        LootDrop {
            item_type: self.item_type.clone(),
            quantity: self.quantity,
            chance_centi: self.chance_centi,
        }
    }
}

pub struct NPC {
    pub id: u32,
    pub npc_type: NPCType,
    pub faction: Faction,
    /// Position, milli-units.
    pub x: i64,
    pub y: i64,
    /// Velocity, milli-units per second.
    pub vx: i64,
    pub vy: i64,
    pub combat: NPCCombatStats,
    pub behavior_state: BehaviorState,
    pub target_player_id: Option<u32>,
    pub target_position: Option<(i64, i64)>,
    pub patrol_waypoints: Vec<(i64, i64)>,
    pub patrol_index: usize,
    pub idle_timer_ms: u64,
    /// Detection radius, milli-units.
    pub aggro_range_milli: i64,
    /// Flee at or below this fraction of health, hundredths.
    pub flee_threshold_centi: u32,
    /// Movement speed, milli-units per second.
    pub move_speed_milli: u64,
    pub alive: bool,
    pub zone_id: String,
    pub loot_table: Vec<LootDrop>,
}

impl NPC {
    /// Health capped by the maximum, position in the world, speed within
    /// the template bound, and a dead NPC does not move.
    pub open spec fn wf(&self) -> bool {
        &&& self.combat.hp <= self.combat.max_hp
        &&& self.combat.max_hp > 0
        &&& -WORLD_LIMIT_MILLI <= self.x <= WORLD_LIMIT_MILLI
        &&& -WORLD_LIMIT_MILLI <= self.y <= WORLD_LIMIT_MILLI
        &&& -2_000_000 <= self.vx <= 2_000_000
        &&& -2_000_000 <= self.vy <= 2_000_000
        &&& 1 <= self.move_speed_milli <= 2_000_000
        &&& self.flee_threshold_centi <= 100
        &&& 0 <= self.aggro_range_milli <= 1_000_000
        &&& 0 <= self.combat.attack_range_milli <= 1_000_000
        &&& (self.alive == false ==> self.vx == 0 && self.vy == 0)
        &&& (self.combat.hp == 0 ==> self.alive == false)
    }

    /// Take damage; hit points floor at zero and a drained NPC dies and
    /// stops.  Returns whether this hit killed it.
    pub fn take_damage(&mut self, amount: u64) -> (r: bool)
        requires
            old(self).wf(),
        ensures
            final(self).wf(),
            !old(self).alive ==> *final(self) == *old(self) && !r,
            old(self).alive ==> final(self).combat.hp == (if old(self).combat.hp < amount {
                0u64
            } else {
                (old(self).combat.hp - amount) as u64
            }),
            r == (old(self).alive && old(self).combat.hp <= amount),
            r ==> !final(self).alive && final(self).vx == 0 && final(self).vy == 0,
            final(self).id == old(self).id,
            final(self).x == old(self).x,
            final(self).y == old(self).y,
            final(self).combat.max_hp == old(self).combat.max_hp,
            final(self).npc_type == old(self).npc_type,
            final(self).zone_id == old(self).zone_id,
            final(self).loot_table@ == old(self).loot_table@,
    {
        if !self.alive {
            return false;
        }
        let new_hp = if self.combat.hp < amount {
            0
        } else {
            self.combat.hp - amount
        };
        self.combat.hp = new_hp;
        if new_hp == 0 {
            self.alive = false;
            self.vx = 0;
            self.vy = 0;
            return true;
        }
        false
    }

    /// Roll the loot table: each entry drops independently with its own
    /// chance.  Every dropped item comes from the table.
    pub fn roll_loot(&self) -> (r: Vec<LootItemPayload>)
        ensures
            r@.len() <= self.loot_table@.len(),
    {
        let mut drops: Vec<LootItemPayload> = Vec::new();
        let n = self.loot_table.len();
        for i in 0..n
            invariant
                n == self.loot_table@.len(),
                drops@.len() <= i,
        {
            let roll = random_in(0, 100);
            if (roll as u32) < self.loot_table[i].chance_centi {
                drops.push(
                    LootItemPayload {
                        item_type: self.loot_table[i].item_type.clone(),
                        quantity: self.loot_table[i].quantity,
                    },
                );
            }
        }
        drops
    }
}

/// The fixed per-kind template: faction, combat stats, ranges and speed.
pub struct NPCTemplate {
    pub npc_type: NPCType,
    pub faction: Faction,
    pub combat_stats: NPCCombatStats,
    pub loot_table: Vec<LootDrop>,
    pub aggro_range_milli: i64,
    pub flee_threshold_centi: u32,
    pub move_speed_milli: u64,
}

/// The authoritative NPC table.
pub fn get_npc_template(npc_type: NPCType) -> (r: NPCTemplate)
    ensures
        r.npc_type == npc_type,
        r.combat_stats.hp == r.combat_stats.max_hp,
        r.combat_stats.max_hp > 0,
        r.combat_stats.cooldown_timer_ms == 0,
        1 <= r.move_speed_milli <= 2_000_000,
        r.flee_threshold_centi <= 100,
        0 <= r.aggro_range_milli <= 1_000_000,
        0 <= r.combat_stats.attack_range_milli <= 1_000_000,
        npc_type is Pirate ==> r.faction is Hostile && r.combat_stats.max_hp == 80
            && r.combat_stats.damage == 6 && r.aggro_range_milli == 200_000
            && r.flee_threshold_centi == 20 && r.move_speed_milli == 400_000
            && r.combat_stats.attack_range_milli == 150_000
            && r.combat_stats.attack_cooldown_ms == 1_000,
        npc_type is Trader ==> r.faction is Neutral && r.combat_stats.max_hp == 60
            && r.flee_threshold_centi == 80 && r.move_speed_milli == 350_000,
        npc_type is MiningDrone ==> r.faction is Neutral && r.combat_stats.max_hp == 40
            && r.combat_stats.damage == 0 && r.move_speed_milli == 250_000,
        npc_type is BountyHunter ==> r.faction is Neutral && r.combat_stats.max_hp == 120
            && r.combat_stats.damage == 12 && r.aggro_range_milli == 250_000
            && r.flee_threshold_centi == 15 && r.move_speed_milli == 500_000,
        npc_type is StationGuard ==> r.faction is Friendly && r.combat_stats.max_hp == 150
            && r.combat_stats.damage == 10 && r.aggro_range_milli == 300_000
            && r.flee_threshold_centi == 0 && r.move_speed_milli == 450_000,
{
    match npc_type {
        NPCType::Pirate => {
            let mut loot: Vec<LootDrop> = Vec::new();
            loot.push(LootDrop { item_type: "iron".to_owned(), quantity: 5, chance_centi: 80 });
            loot.push(LootDrop { item_type: "copper".to_owned(), quantity: 3, chance_centi: 50 });
            loot.push(
                LootDrop { item_type: "iron_plate".to_owned(), quantity: 1, chance_centi: 20 },
            );
            NPCTemplate {
                npc_type: NPCType::Pirate,
                faction: Faction::Hostile,
                combat_stats: NPCCombatStats {
                    max_hp: 80,
                    hp: 80,
                    damage: 6,
                    attack_range_milli: 150_000,
                    attack_cooldown_ms: 1_000,
                    cooldown_timer_ms: 0,
                },
                loot_table: loot,
                aggro_range_milli: 200_000,
                flee_threshold_centi: 20,
                move_speed_milli: 400_000,
            }
        },
        NPCType::Trader => {
            let mut loot: Vec<LootDrop> = Vec::new();
            loot.push(
                LootDrop { item_type: "copper_wire".to_owned(), quantity: 2, chance_centi: 60 },
            );
            loot.push(
                LootDrop { item_type: "silicon_wafer".to_owned(), quantity: 1, chance_centi: 30 },
            );
            loot.push(
                LootDrop { item_type: "iron_plate".to_owned(), quantity: 2, chance_centi: 40 },
            );
            NPCTemplate {
                npc_type: NPCType::Trader,
                faction: Faction::Neutral,
                combat_stats: NPCCombatStats {
                    max_hp: 60,
                    hp: 60,
                    damage: 2,
                    attack_range_milli: 100_000,
                    attack_cooldown_ms: 2_000,
                    cooldown_timer_ms: 0,
                },
                loot_table: loot,
                aggro_range_milli: 100_000,
                flee_threshold_centi: 80,
                move_speed_milli: 350_000,
            }
        },
        NPCType::MiningDrone => {
            let mut loot: Vec<LootDrop> = Vec::new();
            loot.push(LootDrop { item_type: "iron".to_owned(), quantity: 10, chance_centi: 90 });
            loot.push(LootDrop { item_type: "silicon".to_owned(), quantity: 5, chance_centi: 50 });
            NPCTemplate {
                npc_type: NPCType::MiningDrone,
                faction: Faction::Neutral,
                combat_stats: NPCCombatStats {
                    max_hp: 40,
                    hp: 40,
                    damage: 0,
                    attack_range_milli: 0,
                    attack_cooldown_ms: 999_000,
                    cooldown_timer_ms: 0,
                },
                loot_table: loot,
                aggro_range_milli: 50_000,
                flee_threshold_centi: 50,
                move_speed_milli: 250_000,
            }
        },
        NPCType::BountyHunter => {
            let mut loot: Vec<LootDrop> = Vec::new();
            loot.push(
                LootDrop { item_type: "basic_circuit".to_owned(), quantity: 1, chance_centi: 40 },
            );
            loot.push(
                LootDrop { item_type: "carbon_fiber".to_owned(), quantity: 2, chance_centi: 30 },
            );
            loot.push(
                LootDrop { item_type: "hull_panel".to_owned(), quantity: 1, chance_centi: 20 },
            );
            NPCTemplate {
                npc_type: NPCType::BountyHunter,
                faction: Faction::Neutral,
                combat_stats: NPCCombatStats {
                    max_hp: 120,
                    hp: 120,
                    damage: 12,
                    attack_range_milli: 180_000,
                    attack_cooldown_ms: 800,
                    cooldown_timer_ms: 0,
                },
                loot_table: loot,
                aggro_range_milli: 250_000,
                flee_threshold_centi: 15,
                move_speed_milli: 500_000,
            }
        },
        NPCType::StationGuard => {
            let loot: Vec<LootDrop> = Vec::new();
            NPCTemplate {
                npc_type: NPCType::StationGuard,
                faction: Faction::Friendly,
                combat_stats: NPCCombatStats {
                    max_hp: 150,
                    hp: 150,
                    damage: 10,
                    attack_range_milli: 200_000,
                    attack_cooldown_ms: 600,
                    cooldown_timer_ms: 0,
                },
                loot_table: loot,
                aggro_range_milli: 300_000,
                flee_threshold_centi: 0,
                move_speed_milli: 450_000,
            }
        },
    }
}

/// Snapshot of another NPC, for guard behaviour.
pub struct NPCSnapshot {
    pub id: u32,
    pub faction: Faction,
    pub x: i64,
    pub y: i64,
    pub alive: bool,
}

/// Head the NPC toward a point at its own speed, with a stop dead-zone.
fn move_toward(npc: &mut NPC, target_x: i64, target_y: i64)
    requires
        old(npc).wf(),
        old(npc).alive,
        -WORLD_LIMIT_MILLI <= target_x <= WORLD_LIMIT_MILLI,
        -WORLD_LIMIT_MILLI <= target_y <= WORLD_LIMIT_MILLI,
    ensures
        final(npc).wf(),
        final(npc).x == old(npc).x,
        final(npc).y == old(npc).y,
        final(npc).id == old(npc).id,
        final(npc).alive == old(npc).alive,
        final(npc).behavior_state == old(npc).behavior_state,
        final(npc).combat == old(npc).combat,
        final(npc).npc_type == old(npc).npc_type,
        final(npc).zone_id == old(npc).zone_id,
        final(npc).idle_timer_ms == old(npc).idle_timer_ms,
        final(npc).target_player_id == old(npc).target_player_id,
        final(npc).flee_threshold_centi == old(npc).flee_threshold_centi,
        final(npc).aggro_range_milli == old(npc).aggro_range_milli,
    // The velocity points toward the target on each axis.
        (target_x >= old(npc).x ==> final(npc).vx >= 0),
        (target_x <= old(npc).x ==> final(npc).vx <= 0),
        (target_y >= old(npc).y ==> final(npc).vy >= 0),
        (target_y <= old(npc).y ==> final(npc).vy <= 0),

{
    let dx = target_x - npc.x;
    let dy = target_y - npc.y;
    // Within five units of the target: stop.
    if -5_000 <= dx && dx <= 5_000 && -5_000 <= dy && dy <= 5_000 {
        npc.vx = 0;
        npc.vy = 0;
        return ;
    }
    let (vx, vy) = scale_vector(dx, dy, 1, npc.move_speed_milli);
    npc.vx = vx;
    npc.vy = vy;
}

/// Head the NPC directly away from a point at its own speed.
fn move_away(npc: &mut NPC, target_x: i64, target_y: i64)
    requires
        old(npc).wf(),
        old(npc).alive,
        -WORLD_LIMIT_MILLI <= target_x <= WORLD_LIMIT_MILLI,
        -WORLD_LIMIT_MILLI <= target_y <= WORLD_LIMIT_MILLI,
    ensures
        final(npc).wf(),
        final(npc).x == old(npc).x,
        final(npc).y == old(npc).y,
        final(npc).id == old(npc).id,
        final(npc).alive == old(npc).alive,
        final(npc).behavior_state == old(npc).behavior_state,
        final(npc).combat == old(npc).combat,
        final(npc).npc_type == old(npc).npc_type,
        final(npc).zone_id == old(npc).zone_id,
        final(npc).idle_timer_ms == old(npc).idle_timer_ms,
        final(npc).target_player_id == old(npc).target_player_id,
        final(npc).flee_threshold_centi == old(npc).flee_threshold_centi,
        final(npc).aggro_range_milli == old(npc).aggro_range_milli,
        // Away from the target on each axis — unless standing exactly
        // on it, where the direction is free.
        ((target_x, target_y) != (old(npc).x, old(npc).y) ==> ((target_x >= old(npc).x
            ==> final(npc).vx <= 0) && (target_x <= old(npc).x ==> final(npc).vx >= 0) && (
        target_y >= old(npc).y ==> final(npc).vy <= 0) && (target_y <= old(npc).y
            ==> final(npc).vy >= 0))),
{
    let dx = npc.x - target_x;
    let dy = npc.y - target_y;
    if dx == 0 && dy == 0 {
        // Standing exactly on the threat: pick a random direction.
        let jx = random_in(0, 2001) as i64 - 1000;
        let jy = random_in(0, 2001) as i64 - 1000;
        let (vx, vy) = scale_vector(
            if jx == 0 {
                1
            } else {
                jx
            },
            jy,
            1,
            npc.move_speed_milli,
        );
        npc.vx = vx;
        npc.vy = vy;
        return ;
    }
    let (vx, vy) = scale_vector(dx, dy, 1, npc.move_speed_milli);
    npc.vx = vx;
    npc.vy = vy;
}

/// Strafe perpendicular to the target at thirty percent speed.
fn strafe_around(npc: &mut NPC, target_x: i64, target_y: i64)
    requires
        old(npc).wf(),
        old(npc).alive,
        -WORLD_LIMIT_MILLI <= target_x <= WORLD_LIMIT_MILLI,
        -WORLD_LIMIT_MILLI <= target_y <= WORLD_LIMIT_MILLI,
    ensures
        final(npc).wf(),
        final(npc).x == old(npc).x,
        final(npc).y == old(npc).y,
        final(npc).id == old(npc).id,
        final(npc).alive == old(npc).alive,
        final(npc).behavior_state == old(npc).behavior_state,
        final(npc).combat == old(npc).combat,
        final(npc).npc_type == old(npc).npc_type,
        final(npc).zone_id == old(npc).zone_id,
        final(npc).idle_timer_ms == old(npc).idle_timer_ms,
        final(npc).target_player_id == old(npc).target_player_id,
        final(npc).flee_threshold_centi == old(npc).flee_threshold_centi,
        final(npc).aggro_range_milli == old(npc).aggro_range_milli,
{
    let dx = target_x - npc.x;
    let dy = target_y - npc.y;
    // Perpendicular direction, at 30 % speed.
    let speed = npc.move_speed_milli * 3 / 10;
    let speed = if speed == 0 {
        1
    } else {
        speed
    };
    let (vx, vy) = scale_vector(-dy, dx, 1, speed);
    npc.vx = vx;
    npc.vy = vy;
}

/// The closest living player within `max_range`, if any.
fn find_closest_player(npc: &NPC, players: &Vec<PlayerState>, max_range_milli: i64) -> (r: Option<
    u32,
>)
    requires
        npc.wf(),
        0 <= max_range_milli <= 2_000_000,
        forall|i: int|
            0 <= i < players@.len() ==> -WORLD_LIMIT_MILLI <= (#[trigger] players@[i]).x
                <= WORLD_LIMIT_MILLI && -WORLD_LIMIT_MILLI <= players@[i].y <= WORLD_LIMIT_MILLI,
    ensures
        players@.len() == 0 ==> r is None,
        players@.len() == 1 ==> r == (if spec_dist_sq(
            npc.x as int,
            npc.y as int,
            players@[0].x as int,
            players@[0].y as int,
        ) < max_range_milli * max_range_milli {
            Some(players@[0].id)
        } else {
            None::<u32>
        }),
{
    let mut closest: Option<u32> = None;
    proof {
        assert(max_range_milli * max_range_milli <= 2_000_000 * 2_000_000) by (nonlinear_arith)
            requires
                0 <= max_range_milli <= 2_000_000,
        ;
    }
    let range_sq = (max_range_milli * max_range_milli) as u64;
    let mut best = range_sq;
    let n = players.len();
    for i in 0..n
        invariant
            n == players@.len(),
            npc.wf(),
            range_sq == max_range_milli * max_range_milli,
            players@.len() == 0 ==> closest is None,
            players@.len() == 1 ==> (if i == 0 {
                closest is None && best == range_sq
            } else {
                closest == (if spec_dist_sq(
                    npc.x as int,
                    npc.y as int,
                    players@[0].x as int,
                    players@[0].y as int,
                ) < max_range_milli * max_range_milli {
                    Some(players@[0].id)
                } else {
                    None::<u32>
                })
            }),
            forall|t: int|
                0 <= t < players@.len() ==> -WORLD_LIMIT_MILLI <= (#[trigger] players@[t]).x
                    <= WORLD_LIMIT_MILLI && -WORLD_LIMIT_MILLI <= players@[t].y
                    <= WORLD_LIMIT_MILLI,
    {
        proof {
            let dxx = npc.x - players@[i as int].x;
            let dyy = npc.y - players@[i as int].y;
            assert(dxx * dxx + dyy * dyy <= 2 * (2_000_000_000 * 2_000_000_000))
                by (nonlinear_arith)
                requires
                    -2_000_000_000 <= dxx <= 2_000_000_000,
                    -2_000_000_000 <= dyy <= 2_000_000_000,
            ;
        }
        let d2 = dist_sq(npc.x, npc.y, players[i].x, players[i].y);
        if d2 < best {
            best = d2;
            closest = Some(players[i].id);
        }
    }
    closest
}

fn find_player_index(players: &Vec<PlayerState>, id: u32) -> (r: Option<usize>)
    ensures
        match r {
            Some(i) => i < players@.len() && players@[i as int].id == id,
            None => forall|j: int| 0 <= j < players@.len() ==> (#[trigger] players@[j]).id != id,
        },
{
    let n = players.len();
    for i in 0..n
        invariant
            n == players@.len(),
            forall|j: int| 0 <= j < i ==> (#[trigger] players@[j]).id != id,
    {
        if players[i].id == id {
            return Some(i);
        }
    }
    None
}

/// Move the patrol to its next waypoint; an empty route idles.
fn advance_patrol(npc: &mut NPC)
    requires
        old(npc).wf(),
    ensures
        final(npc).wf(),
        final(npc).x == old(npc).x,
        final(npc).y == old(npc).y,
        final(npc).vx == old(npc).vx,
        final(npc).vy == old(npc).vy,
        final(npc).id == old(npc).id,
        final(npc).alive == old(npc).alive,
        final(npc).combat == old(npc).combat,
        final(npc).npc_type == old(npc).npc_type,
        final(npc).zone_id == old(npc).zone_id,
        final(npc).target_player_id == old(npc).target_player_id,
        final(npc).flee_threshold_centi == old(npc).flee_threshold_centi,
        final(npc).aggro_range_milli == old(npc).aggro_range_milli,
        final(npc).idle_timer_ms == old(npc).idle_timer_ms,
{
    if self_waypoint_count(npc) == 0 {
        npc.behavior_state = BehaviorState::Idle;
        return ;
    }
    let count = npc.patrol_waypoints.len();
    let next = if npc.patrol_index >= count - 1 {
        0
    } else {
        npc.patrol_index + 1
    };
    npc.patrol_index = next;
    let wp = npc.patrol_waypoints[next];
    npc.target_position = Some(wp);
}

fn self_waypoint_count(npc: &NPC) -> (r: usize)
    ensures
        r == npc.patrol_waypoints@.len(),
{
    npc.patrol_waypoints.len()
}

/// Health fraction in hundredths, capped at one whole.
pub open spec fn spec_hp_frac(npc: NPC) -> int {
    let f = npc.combat.hp as int * 100 / npc.combat.max_hp as int;
    if f > 100 {
        100
    } else {
        f
    }
}

/// One behaviour tick: cooldowns run down, the per-kind state machine
/// picks the next state and movement intent, and the NPC advances by one
/// tick of velocity, staying inside the world.  A dead NPC does nothing.
pub fn process_npc_ai(
    npc: &mut NPC,
    players: &Vec<PlayerState>,
    npcs: &Vec<NPCSnapshot>,
    dt_ms: u64,
) -> (r: ())
    requires
        old(npc).wf(),
        dt_ms <= 10_000,
        forall|i: int|
            0 <= i < players@.len() ==> -WORLD_LIMIT_MILLI <= (#[trigger] players@[i]).x
                <= WORLD_LIMIT_MILLI && -WORLD_LIMIT_MILLI <= players@[i].y <= WORLD_LIMIT_MILLI,
        forall|i: int|
            0 <= i < npcs@.len() ==> -WORLD_LIMIT_MILLI <= (#[trigger] npcs@[i]).x
                <= WORLD_LIMIT_MILLI && -WORLD_LIMIT_MILLI <= npcs@[i].y <= WORLD_LIMIT_MILLI,
    ensures
        final(npc).wf(),
        final(npc).id == old(npc).id,
        final(npc).npc_type == old(npc).npc_type,
        final(npc).zone_id == old(npc).zone_id,
        !old(npc).alive ==> *final(npc) == *old(npc),
        final(npc).combat.hp == old(npc).combat.hp,
        final(npc).combat.max_hp == old(npc).combat.max_hp,
        // The pirate-family transitions surface here: flight at the
        // health threshold, recovery at twice it, idle to patrol after
        // two seconds, chase in aggro range, attack in weapon range.
        ({
            let frac = spec_hp_frac(*old(npc));
            (old(npc).alive && (old(npc).npc_type is Pirate || old(
                npc,
            ).npc_type is BountyHunter)) ==> {
                &&& (frac <= old(npc).flee_threshold_centi ==> final(npc).behavior_state is Flee)
                &&& (old(npc).behavior_state is Flee && frac > 2 * old(npc).flee_threshold_centi
                    ==> final(npc).behavior_state is Patrol)
                &&& (old(npc).behavior_state is Idle && frac > old(npc).flee_threshold_centi
                    && players@.len() == 0 && old(npc).idle_timer_ms + dt_ms > 2_000
                    ==> final(npc).behavior_state is Patrol)
                &&& (old(npc).behavior_state is Idle && frac > old(npc).flee_threshold_centi
                    && players@.len() == 1 && spec_dist_sq(
                    old(npc).x as int,
                    old(npc).y as int,
                    players@[0].x as int,
                    players@[0].y as int,
                ) < old(npc).aggro_range_milli * old(npc).aggro_range_milli
                    ==> final(npc).behavior_state is Chase && final(npc).target_player_id
                    == Some(players@[0].id))
                &&& ({
                    let d2 = spec_dist_sq(
                        old(npc).x as int,
                        old(npc).y as int,
                        players@[0].x as int,
                        players@[0].y as int,
                    );
                    let giveup = old(npc).aggro_range_milli + old(npc).aggro_range_milli / 2;
                    old(npc).behavior_state is Chase && frac > old(npc).flee_threshold_centi
                        && players@.len() == 1 && old(npc).target_player_id == Some(
                        players@[0].id,
                    ) && d2 <= old(npc).combat.attack_range_milli * old(
                        npc,
                    ).combat.attack_range_milli && d2 <= giveup * giveup
                }) ==> final(npc).behavior_state is Attack
            }
        }),
        // The trader's flight rule surfaces likewise.
        ({
            let frac = spec_hp_frac(*old(npc));
            (old(npc).alive && old(npc).npc_type is Trader) ==> {
                &&& (frac < old(npc).flee_threshold_centi && players@.len() == 0
                    ==> final(npc).behavior_state is Patrol)
                &&& ({
                    let dr: int = if old(npc).aggro_range_milli <= 1_000_000 {
                        old(npc).aggro_range_milli * 2
                    } else {
                        2_000_000
                    };
                    frac < old(npc).flee_threshold_centi && players@.len() == 1 && spec_dist_sq(
                        old(npc).x as int,
                        old(npc).y as int,
                        players@[0].x as int,
                        players@[0].y as int,
                    ) < dr * dr
                }) ==> final(npc).behavior_state is Flee
            }
        }),
        // And the drone's eight-second mining pause.
        (old(npc).alive && old(npc).npc_type is MiningDrone) ==> {
            &&& (old(npc).behavior_state is Mine && old(npc).idle_timer_ms + dt_ms > 8_000
                ==> final(npc).behavior_state is Patrol && final(npc).idle_timer_ms == 0)
            &&& (old(npc).behavior_state is Mine && old(npc).idle_timer_ms + dt_ms <= 8_000
                ==> final(npc).behavior_state is Mine && final(npc).idle_timer_ms
                == old(npc).idle_timer_ms + dt_ms)
        },
{
    if !npc.alive {
        return ;
    }

    // Attack cooldown runs down.
    if npc.combat.cooldown_timer_ms > 0 {
        let t = npc.combat.cooldown_timer_ms;
        npc.combat.cooldown_timer_ms = if t > dt_ms {
            t - dt_ms
        } else {
            0
        };
    }

    let hp_frac128 = npc.combat.hp as u128 * 100 / npc.combat.max_hp as u128;
    let hp_frac_centi = if hp_frac128 > 100 {
        100u32
    } else {
        hp_frac128 as u32
    };

    match npc.npc_type {
        NPCType::Pirate => {
            pirate_ai(npc, players, hp_frac_centi, dt_ms);
        },
        NPCType::BountyHunter => {
            pirate_ai(npc, players, hp_frac_centi, dt_ms);
        },
        NPCType::Trader => {
            trader_ai(npc, players, hp_frac_centi, dt_ms);
        },
        NPCType::MiningDrone => {
            drone_ai(npc, dt_ms);
        },
        NPCType::StationGuard => {
            guard_ai(npc, npcs, dt_ms);
        },
    }

    // Integrate position.
    let mx = scaled_step(npc.vx, dt_ms);
    let my = scaled_step(npc.vy, dt_ms);
    npc.x = clamp_world_coord(npc.x + mx);
    npc.y = clamp_world_coord(npc.y + my);
}

/// Pirates and bounty hunters: idle, patrol, chase players in aggro
/// range, attack in weapon range, and flee at low health.
fn pirate_ai(npc: &mut NPC, players: &Vec<PlayerState>, hp_frac_centi: u32, dt_ms: u64)
    requires
        old(npc).wf(),
        old(npc).alive,
        dt_ms <= 10_000,
        forall|i: int|
            0 <= i < players@.len() ==> -WORLD_LIMIT_MILLI <= (#[trigger] players@[i]).x
                <= WORLD_LIMIT_MILLI && -WORLD_LIMIT_MILLI <= players@[i].y <= WORLD_LIMIT_MILLI,
    ensures
        final(npc).wf(),
        final(npc).id == old(npc).id,
        final(npc).npc_type == old(npc).npc_type,
        final(npc).zone_id == old(npc).zone_id,
        final(npc).alive == old(npc).alive,
        final(npc).x == old(npc).x,
        final(npc).y == old(npc).y,
        final(npc).combat.hp == old(npc).combat.hp,
        final(npc).combat.max_hp == old(npc).combat.max_hp,
        // Low health forces flight.
        hp_frac_centi <= old(npc).flee_threshold_centi ==> final(npc).behavior_state is Flee,
        // Recovery once health doubles past the threshold.
        old(npc).behavior_state is Flee && hp_frac_centi > 2 * old(npc).flee_threshold_centi
            ==> final(npc).behavior_state is Patrol && final(npc).target_player_id is None,
        // An undisturbed idler starts patrolling after two seconds.
        old(npc).behavior_state is Idle && hp_frac_centi > old(npc).flee_threshold_centi
            && players@.len() == 0 && old(npc).idle_timer_ms + dt_ms > 2_000
            ==> final(npc).behavior_state is Patrol,
        old(npc).behavior_state is Idle && hp_frac_centi > old(npc).flee_threshold_centi
            && players@.len() == 0 && old(npc).idle_timer_ms + dt_ms <= 2_000
            ==> final(npc).behavior_state is Idle && final(npc).idle_timer_ms
            == old(npc).idle_timer_ms + dt_ms,
        // A player inside aggro range draws the idler into a chase.
        old(npc).behavior_state is Idle && hp_frac_centi > old(npc).flee_threshold_centi
            && players@.len() == 1 && spec_dist_sq(
            old(npc).x as int,
            old(npc).y as int,
            players@[0].x as int,
            players@[0].y as int,
        ) < old(npc).aggro_range_milli * old(npc).aggro_range_milli
            ==> final(npc).behavior_state is Chase && final(npc).target_player_id == Some(
            players@[0].id,
        ),
        // The chase turns into an attack inside weapon range.
        ({
            let d2 = spec_dist_sq(
                old(npc).x as int,
                old(npc).y as int,
                players@[0].x as int,
                players@[0].y as int,
            );
            let giveup = old(npc).aggro_range_milli + old(npc).aggro_range_milli / 2;
            old(npc).behavior_state is Chase && hp_frac_centi > old(npc).flee_threshold_centi
                && players@.len() == 1 && old(npc).target_player_id == Some(players@[0].id) && d2
                <= old(npc).combat.attack_range_milli * old(npc).combat.attack_range_milli && d2
                <= giveup * giveup
        }) ==> final(npc).behavior_state is Attack,
        // Past weapon range but within the chase, the pirate heads
        // toward its target.
        ({
            let d2 = spec_dist_sq(
                old(npc).x as int,
                old(npc).y as int,
                players@[0].x as int,
                players@[0].y as int,
            );
            let giveup = old(npc).aggro_range_milli + old(npc).aggro_range_milli / 2;
            old(npc).behavior_state is Chase && hp_frac_centi > old(npc).flee_threshold_centi
                && players@.len() == 1 && old(npc).target_player_id == Some(players@[0].id) && d2
                > old(npc).combat.attack_range_milli * old(npc).combat.attack_range_milli && d2
                <= giveup * giveup
        }) ==> ((players@[0].x >= old(npc).x ==> final(npc).vx >= 0) && (players@[0].x <= old(
            npc,
        ).x ==> final(npc).vx <= 0) && (players@[0].y >= old(npc).y ==> final(npc).vy >= 0) && (
        players@[0].y <= old(npc).y ==> final(npc).vy <= 0)),
{
    if hp_frac_centi <= npc.flee_threshold_centi && !is_state(npc, BehaviorState::Flee) {
        npc.behavior_state = BehaviorState::Flee;
    }

    match npc.behavior_state {
        BehaviorState::Idle => {
            npc.idle_timer_ms = if npc.idle_timer_ms > u64::MAX - dt_ms {
                u64::MAX
            } else {
                npc.idle_timer_ms + dt_ms
            };
            npc.vx = 0;
            npc.vy = 0;
            if npc.idle_timer_ms > 2_000 {
                npc.idle_timer_ms = 0;
                npc.behavior_state = BehaviorState::Patrol;
                if self_waypoint_count(npc) > 0 {
                    let idx = if npc.patrol_index < npc.patrol_waypoints.len() {
                        npc.patrol_index
                    } else {
                        0
                    };
                    let wp = npc.patrol_waypoints[idx];
                    npc.target_position = Some(wp);
                }
            }
            match find_closest_player(npc, players, npc.aggro_range_milli) {
                Some(target_id) => {
                    npc.target_player_id = Some(target_id);
                    npc.behavior_state = BehaviorState::Chase;
                },
                None => {},
            }
        },
        BehaviorState::Patrol => {
            match find_closest_player(npc, players, npc.aggro_range_milli) {
                Some(target_id) => {
                    npc.target_player_id = Some(target_id);
                    npc.behavior_state = BehaviorState::Chase;
                },
                None => {
                    let tp = npc.target_position;
                    match tp {
                        Some((tx, ty)) => {
                            let ctx = clamp_world_coord(tx);
                            let cty = clamp_world_coord(ty);
                            if near(npc.x, npc.y, ctx, cty, 30_000) {
                                advance_patrol(npc);
                            } else {
                                move_toward(npc, ctx, cty);
                            }
                        },
                        None => {
                            advance_patrol(npc);
                        },
                    }
                },
            }
        },
        BehaviorState::Chase => {
            let target = match npc.target_player_id {
                Some(id) => find_player_index(players, id),
                None => None,
            };
            match target {
                None => {
                    npc.target_player_id = None;
                    npc.behavior_state = BehaviorState::Patrol;
                },
                Some(ti) => {
                    let tx = players[ti].x;
                    let ty = players[ti].y;
                    // Give up past one and a half times the aggro range.
                    let giveup = npc.aggro_range_milli + npc.aggro_range_milli / 2;
                    if !near(npc.x, npc.y, tx, ty, giveup) {
                        npc.target_player_id = None;
                        npc.behavior_state = BehaviorState::Patrol;
                    } else if near(npc.x, npc.y, tx, ty, npc.combat.attack_range_milli) {
                        npc.behavior_state = BehaviorState::Attack;
                    } else {
                        move_toward(npc, tx, ty);
                    }
                },
            }
        },
        BehaviorState::Attack => {
            let target = match npc.target_player_id {
                Some(id) => find_player_index(players, id),
                None => None,
            };
            match target {
                None => {
                    npc.target_player_id = None;
                    npc.behavior_state = BehaviorState::Patrol;
                },
                Some(ti) => {
                    let tx = players[ti].x;
                    let ty = players[ti].y;
                    if !near(npc.x, npc.y, tx, ty, npc.combat.attack_range_milli) {
                        npc.behavior_state = BehaviorState::Chase;
                    } else {
                        strafe_around(npc, tx, ty);
                    }
                },
            }
        },
        BehaviorState::Flee => {
            let target = match npc.target_player_id {
                Some(id) => find_player_index(players, id),
                None => None,
            };
            match target {
                Some(ti) => {
                    let tx = players[ti].x;
                    let ty = players[ti].y;
                    move_away(npc, tx, ty);
                },
                None => {},
            }
            // Recover once health doubles past the threshold.
            if hp_frac_centi > 2 * npc.flee_threshold_centi {
                npc.behavior_state = BehaviorState::Patrol;
                npc.target_player_id = None;
            }
        },
        _ => {
            npc.behavior_state = BehaviorState::Idle;
        },
    }
}

/// Traders: cycle waypoints and flee from nearby players when hurt.
fn trader_ai(npc: &mut NPC, players: &Vec<PlayerState>, hp_frac_centi: u32, dt_ms: u64)
    requires
        old(npc).wf(),
        old(npc).alive,
        dt_ms <= 10_000,
        forall|i: int|
            0 <= i < players@.len() ==> -WORLD_LIMIT_MILLI <= (#[trigger] players@[i]).x
                <= WORLD_LIMIT_MILLI && -WORLD_LIMIT_MILLI <= players@[i].y <= WORLD_LIMIT_MILLI,
    ensures
        final(npc).wf(),
        final(npc).id == old(npc).id,
        final(npc).npc_type == old(npc).npc_type,
        final(npc).zone_id == old(npc).zone_id,
        final(npc).alive == old(npc).alive,
        final(npc).x == old(npc).x,
        final(npc).y == old(npc).y,
        final(npc).combat.hp == old(npc).combat.hp,
        final(npc).combat.max_hp == old(npc).combat.max_hp,
        // A hurt trader with nobody near resumes its route.
        hp_frac_centi < old(npc).flee_threshold_centi && players@.len() == 0
            ==> final(npc).behavior_state is Patrol,
        // A hurt trader keeps fleeing while a player sits within twice
        // the aggro range.
        ({
            let dr: int = if old(npc).aggro_range_milli <= 1_000_000 {
                old(npc).aggro_range_milli * 2
            } else {
                2_000_000
            };
            hp_frac_centi < old(npc).flee_threshold_centi && players@.len() == 1 && spec_dist_sq(
                old(npc).x as int,
                old(npc).y as int,
                players@[0].x as int,
                players@[0].y as int,
            ) < dr * dr
        }) ==> final(npc).behavior_state is Flee,
{
    if hp_frac_centi < npc.flee_threshold_centi && !is_state(npc, BehaviorState::Flee) {
        npc.behavior_state = BehaviorState::Flee;
    }
    match npc.behavior_state {
        BehaviorState::Idle => {
            npc.idle_timer_ms = if npc.idle_timer_ms > u64::MAX - dt_ms {
                u64::MAX
            } else {
                npc.idle_timer_ms + dt_ms
            };
            npc.vx = 0;
            npc.vy = 0;
            if npc.idle_timer_ms > 3_000 {
                npc.idle_timer_ms = 0;
                npc.behavior_state = BehaviorState::Patrol;
                if self_waypoint_count(npc) > 0 {
                    let idx = if npc.patrol_index < npc.patrol_waypoints.len() {
                        npc.patrol_index
                    } else {
                        0
                    };
                    let wp = npc.patrol_waypoints[idx];
                    npc.target_position = Some(wp);
                }
            }
        },
        BehaviorState::Patrol => {
            let tp = npc.target_position;
            match tp {
                Some((tx, ty)) => {
                    let ctx = clamp_world_coord(tx);
                    let cty = clamp_world_coord(ty);
                    if near(npc.x, npc.y, ctx, cty, 30_000) {
                        npc.behavior_state = BehaviorState::Idle;
                        npc.idle_timer_ms = 0;
                        advance_patrol(npc);
                    } else {
                        move_toward(npc, ctx, cty);
                    }
                },
                None => {
                    advance_patrol(npc);
                },
            }
        },
        BehaviorState::Flee => {
            let double_range = if npc.aggro_range_milli <= 1_000_000 {
                npc.aggro_range_milli * 2
            } else {
                2_000_000
            };
            match find_closest_player(npc, players, double_range) {
                Some(pid) => {
                    match find_player_index(players, pid) {
                        Some(ti) => {
                            move_away(npc, players[ti].x, players[ti].y);
                        },
                        None => {},
                    }
                },
                None => {
                    npc.behavior_state = BehaviorState::Patrol;
                },
            }
        },
        _ => {
            npc.behavior_state = BehaviorState::Idle;
        },
    }
}

/// Mining drones: patrol waypoints; on arrival mine in place for eight
/// seconds, then move on.
fn drone_ai(npc: &mut NPC, dt_ms: u64)
    requires
        old(npc).wf(),
        old(npc).alive,
        dt_ms <= 10_000,
    ensures
        final(npc).wf(),
        final(npc).id == old(npc).id,
        final(npc).npc_type == old(npc).npc_type,
        final(npc).zone_id == old(npc).zone_id,
        final(npc).alive == old(npc).alive,
        final(npc).x == old(npc).x,
        final(npc).y == old(npc).y,
        final(npc).combat.hp == old(npc).combat.hp,
        final(npc).combat.max_hp == old(npc).combat.max_hp,
        // Mining holds for eight seconds, then the patrol resumes.
        old(npc).behavior_state is Mine && old(npc).idle_timer_ms + dt_ms > 8_000
            ==> final(npc).behavior_state is Patrol && final(npc).idle_timer_ms == 0,
        old(npc).behavior_state is Mine && old(npc).idle_timer_ms + dt_ms <= 8_000
            ==> final(npc).behavior_state is Mine && final(npc).idle_timer_ms
            == old(npc).idle_timer_ms + dt_ms && final(npc).vx == 0 && final(npc).vy == 0,
    {
    match npc.behavior_state {
        BehaviorState::Idle => {
            npc.idle_timer_ms = if npc.idle_timer_ms > u64::MAX - dt_ms {
                u64::MAX
            } else {
                npc.idle_timer_ms + dt_ms
            };
            npc.vx = 0;
            npc.vy = 0;
            if npc.idle_timer_ms > 5_000 {
                npc.idle_timer_ms = 0;
                npc.behavior_state = BehaviorState::Patrol;
                if self_waypoint_count(npc) > 0 {
                    let idx = if npc.patrol_index < npc.patrol_waypoints.len() {
                        npc.patrol_index
                    } else {
                        0
                    };
                    let wp = npc.patrol_waypoints[idx];
                    npc.target_position = Some(wp);
                }
            }
        },
        BehaviorState::Patrol => {
            let tp = npc.target_position;
            match tp {
                Some((tx, ty)) => {
                    let ctx = clamp_world_coord(tx);
                    let cty = clamp_world_coord(ty);
                    if near(npc.x, npc.y, ctx, cty, 30_000) {
                        npc.behavior_state = BehaviorState::Mine;
                        npc.idle_timer_ms = 0;
                    } else {
                        move_toward(npc, ctx, cty);
                    }
                },
                None => {
                    advance_patrol(npc);
                },
            }
        },
        BehaviorState::Mine => {
            npc.vx = 0;
            npc.vy = 0;
            npc.idle_timer_ms = if npc.idle_timer_ms > u64::MAX - dt_ms {
                u64::MAX
            } else {
                npc.idle_timer_ms + dt_ms
            };
            if npc.idle_timer_ms > 8_000 {
                npc.idle_timer_ms = 0;
                advance_patrol(npc);
                npc.behavior_state = BehaviorState::Patrol;
            }
        },
        _ => {
            npc.behavior_state = BehaviorState::Idle;
        },
    }
}

/// Station guards: orbit the station, chase and attack hostile NPCs,
/// ignore players.
fn guard_ai(npc: &mut NPC, npcs: &Vec<NPCSnapshot>, dt_ms: u64)
    requires
        old(npc).wf(),
        old(npc).alive,
        dt_ms <= 10_000,
        forall|i: int|
            0 <= i < npcs@.len() ==> -WORLD_LIMIT_MILLI <= (#[trigger] npcs@[i]).x
                <= WORLD_LIMIT_MILLI && -WORLD_LIMIT_MILLI <= npcs@[i].y <= WORLD_LIMIT_MILLI,
    ensures
        final(npc).wf(),
        final(npc).id == old(npc).id,
        final(npc).npc_type == old(npc).npc_type,
        final(npc).zone_id == old(npc).zone_id,
        final(npc).alive == old(npc).alive,
        final(npc).x == old(npc).x,
        final(npc).y == old(npc).y,
        final(npc).combat.hp == old(npc).combat.hp,
        final(npc).combat.max_hp == old(npc).combat.max_hp,
{
    // Closest living hostile in aggro range.
    let mut hostile: Option<(i64, i64)> = None;
    proof {
        assert(npc.aggro_range_milli * npc.aggro_range_milli <= 1_000_000 * 1_000_000)
            by (nonlinear_arith)
            requires
                0 <= npc.aggro_range_milli <= 1_000_000,
        ;
    }
    let range_sq = (npc.aggro_range_milli * npc.aggro_range_milli) as u64;
    let mut best = range_sq;
    let n = npcs.len();
    for i in 0..n
        invariant
            n == npcs@.len(),
            npc.wf(),
            npc.alive,
            forall|t: int|
                0 <= t < npcs@.len() ==> -WORLD_LIMIT_MILLI <= (#[trigger] npcs@[t]).x
                    <= WORLD_LIMIT_MILLI && -WORLD_LIMIT_MILLI <= npcs@[t].y <= WORLD_LIMIT_MILLI,
            match hostile {
                Some(h) => -WORLD_LIMIT_MILLI <= h.0 <= WORLD_LIMIT_MILLI && -WORLD_LIMIT_MILLI
                    <= h.1 <= WORLD_LIMIT_MILLI,
                None => true,
            },
    {
        let other = &npcs[i];
        let is_hostile = match other.faction {
            Faction::Hostile => true,
            _ => false,
        };
        if other.alive && other.id != npc.id && is_hostile {
            proof {
                let dxx = npc.x - npcs@[i as int].x;
                let dyy = npc.y - npcs@[i as int].y;
                assert(dxx * dxx + dyy * dyy <= 2 * (2_000_000_000 * 2_000_000_000))
                    by (nonlinear_arith)
                    requires
                        -2_000_000_000 <= dxx <= 2_000_000_000,
                        -2_000_000_000 <= dyy <= 2_000_000_000,
                ;
            }
            let d2 = dist_sq(npc.x, npc.y, other.x, other.y);
            if d2 < best {
                best = d2;
                hostile = Some((other.x, other.y));
            }
        }
    }

    match npc.behavior_state {
        BehaviorState::Chase => {
            match hostile {
                Some((hx, hy)) => {
                    if near(npc.x, npc.y, hx, hy, npc.combat.attack_range_milli) {
                        npc.behavior_state = BehaviorState::Attack;
                        npc.target_position = Some((hx, hy));
                    } else {
                        move_toward(npc, hx, hy);
                    }
                },
                None => {
                    npc.behavior_state = BehaviorState::Patrol;
                    npc.target_position = None;
                },
            }
        },
        BehaviorState::Attack => {
            match hostile {
                Some((hx, hy)) => {
                    if !near(npc.x, npc.y, hx, hy, npc.combat.attack_range_milli) {
                        npc.behavior_state = BehaviorState::Chase;
                    } else {
                        strafe_around(npc, hx, hy);
                    }
                },
                None => {
                    npc.behavior_state = BehaviorState::Patrol;
                    npc.target_position = None;
                },
            }
        },
        _ => {
            match hostile {
                Some((hx, hy)) => {
                    npc.target_player_id = None;
                    npc.target_position = Some((hx, hy));
                    npc.behavior_state = BehaviorState::Chase;
                },
                None => {
                    // Orbit the station origin at radius two hundred:
                    // head for the perpendicular point ahead on the ring.
                    let (ox, oy) = scale_vector(npc.x - npc.y / 8, npc.y + npc.x / 8, 1, 200_000);
                    move_toward(npc, ox, oy);
                },
            }
        },
    }
}

/// Whether two points lie within `range` (Euclidean), milli-units.
fn near(ax: i64, ay: i64, bx: i64, by: i64, range_milli: i64) -> (r: bool)
    requires
        -WORLD_LIMIT_MILLI <= ax <= WORLD_LIMIT_MILLI,
        -WORLD_LIMIT_MILLI <= ay <= WORLD_LIMIT_MILLI,
        -WORLD_LIMIT_MILLI <= bx <= WORLD_LIMIT_MILLI,
        -WORLD_LIMIT_MILLI <= by <= WORLD_LIMIT_MILLI,
        0 <= range_milli <= 2_000_000_000,
    ensures
        r == (crate::fixed::spec_dist_sq(ax as int, ay as int, bx as int, by as int) <= (
        range_milli * range_milli) as int),
{
    proof {
        let dxx = ax - bx;
        let dyy = ay - by;
        assert(dxx * dxx + dyy * dyy <= 2 * (2_000_000_000 * 2_000_000_000)) by (nonlinear_arith)
            requires
                -2_000_000_000 <= dxx <= 2_000_000_000,
                -2_000_000_000 <= dyy <= 2_000_000_000,
        ;
        assert(range_milli * range_milli <= 2_000_000_000 * 2_000_000_000) by (nonlinear_arith)
            requires
                0 <= range_milli <= 2_000_000_000,
        ;
    }
    let d2 = dist_sq(ax, ay, bx, by);
    d2 <= (range_milli * range_milli) as u64
}

fn is_state(npc: &NPC, s: BehaviorState) -> (r: bool)
    ensures
        r == (npc.behavior_state == s),
{
    npc.behavior_state == s
}

fn scaled_step(v: i64, dt_ms: u64) -> (r: i64)
    requires
        -2_000_000 <= v <= 2_000_000,
        dt_ms <= 10_000,
    ensures
        -20_000_000 <= r <= 20_000_000,
{
    let mag = if v >= 0 {
        v as u64
    } else {
        (-v) as u64
    };
    proof {
        assert(mag * dt_ms <= 2_000_000 * 10_000) by (nonlinear_arith)
            requires
                mag <= 2_000_000,
                dt_ms <= 10_000,
        ;
    }
    let d = mag * dt_ms / 1000;
    if v >= 0 {
        d as i64
    } else {
        -(d as i64)
    }
}

fn clamp_world_coord(v: i64) -> (r: i64)
    ensures
        -WORLD_LIMIT_MILLI <= r <= WORLD_LIMIT_MILLI,
{
    if v < -WORLD_LIMIT_MILLI {
        -WORLD_LIMIT_MILLI
    } else if v > WORLD_LIMIT_MILLI {
        WORLD_LIMIT_MILLI
    } else {
        v
    }
}

/// An attack intent produced by one NPC tick.
pub struct NPCAttackResult {
    pub target_player_id: Option<u32>,
    pub damage: u64,
}

/// Whether the NPC fires this tick: it must be alive, attacking, off
/// cooldown, and armed.  Firing resets the cooldown.
pub fn check_npc_attack(npc: &mut NPC) -> (r: Option<NPCAttackResult>)
    requires
        old(npc).wf(),
    ensures
        final(npc).wf(),
        ({
            let ok = old(npc).alive && old(npc).behavior_state is Attack
                && old(npc).combat.cooldown_timer_ms == 0 && old(npc).combat.damage > 0;
            &&& (r is Some <==> ok)
            &&& (r is None ==> *final(npc) == *old(npc))
            &&& (r is Some ==> {
                &&& final(npc).combat.cooldown_timer_ms == old(npc).combat.attack_cooldown_ms
                &&& r->0.damage == old(npc).combat.damage
                &&& r->0.target_player_id == old(npc).target_player_id
            })
        }),
{
    if !npc.alive {
        return None;
    }
    if !is_state(npc, BehaviorState::Attack) {
        return None;
    }
    if npc.combat.cooldown_timer_ms > 0 {
        return None;
    }
    if npc.combat.damage == 0 {
        return None;
    }
    npc.combat.cooldown_timer_ms = npc.combat.attack_cooldown_ms;
    Some(NPCAttackResult { target_player_id: npc.target_player_id, damage: npc.combat.damage })
}

// ─── Payloads ────────────────────────────────────────────────────────

pub struct NPCStatePayload {
    pub id: u32,
    pub npc_type: NPCType,
    pub x: i64,
    pub y: i64,
    pub vx: i64,
    pub vy: i64,
    pub hp: u64,
    pub max_hp: u64,
    pub faction: Faction,
    pub behavior_state: BehaviorState,
}

pub struct NPCSpawnPayload {
    pub npc_id: u32,
    pub npc_type: NPCType,
    pub x: i64,
    pub y: i64,
    pub faction: Faction,
}

pub struct LootItemPayload {
    pub item_type: String,
    pub quantity: u32,
}

impl Clone for LootItemPayload {
    fn clone(&self) -> (r: Self)
        ensures
            r.item_type == self.item_type,
            r.quantity == self.quantity,
    {
        LootItemPayload { item_type: self.item_type.clone(), quantity: self.quantity }
    }
}

pub struct NPCDeathPayload {
    pub npc_id: u32,
    pub loot_items: Vec<LootItemPayload>,
}

/// Snapshot of an NPC for world-state broadcasts.
pub fn npc_to_state_payload(npc: &NPC) -> (r: NPCStatePayload)
    ensures
        r.id == npc.id,
        r.x == npc.x,
        r.y == npc.y,
        r.hp == npc.combat.hp,
        r.max_hp == npc.combat.max_hp,
{
    NPCStatePayload {
        id: npc.id,
        npc_type: npc.npc_type,
        x: npc.x,
        y: npc.y,
        vx: npc.vx,
        vy: npc.vy,
        hp: npc.combat.hp,
        max_hp: npc.combat.max_hp,
        faction: npc.faction,
        behavior_state: npc.behavior_state,
    }
}

} // verus!

//! Per-zone combat management: firing with per-slot cooldowns,
//! projectile ticks with shield regeneration, and respawn after death.

use vstd::prelude::*;

use crate::combat::{spec_regened, 
    is_dead, reset_combat_stats, tick_shield_regen, CombatStats, RESPAWN_DELAY_MS,
};
use crate::player::WORLD_LIMIT_MILLI;
use crate::util::str_eq;
use crate::weapon::{
    create_projectile, get_weapon_config, process_projectiles, CollisionTarget, Projectile,
    ProjectileHit, WeaponType,
};

verus! {

/// Spatial data of one player for the combat tick.
pub struct CombatPlayerData {
    pub id: u32,
    pub x: i64,
    pub y: i64,
    pub is_disconnected: bool,
}

/// Position and shield restored on respawn.
pub struct RespawnOutcome {
    pub x: i64,
    pub y: i64,
    pub hp: u64,
    pub shield: u64,
}

/// The cooldown rule: a slot may fire once the weapon's cooldown has
/// passed since its last shot (a slot that never fired has last shot
/// zero).
pub open spec fn spec_can_fire(last_fired_ms: u64, cooldown_ms: u64, now_ms: u64) -> bool {
    now_ms >= last_fired_ms && now_ms - last_fired_ms >= cooldown_ms
}

/// Handle a fire request.  Firing succeeds exactly when the zone allows
/// combat, the player is alive, the slot exists, and the slot's cooldown
/// has fully passed; at the exact cooldown boundary the shot fires.  On
/// success the slot's last-fire time is stamped and a projectile is
/// spawned toward the aim point.
pub fn handle_fire_weapon(
    player_id: u32,
    player_x: i64,
    player_y: i64,
    facing_x: i64,
    facing_y: i64,
    player_hp: u64,
    weapon_slot: u32,
    aim_x: i64,
    aim_y: i64,
    zone_type: &str,
    equipped_weapons: &Vec<WeaponType>,
    weapon_cooldowns: &mut Vec<u64>,
    zone_projectiles: &mut Vec<Projectile>,
    projectile_id: u32,
    server_time_ms: u64,
) -> (r: Option<String>)
    requires
        old(weapon_cooldowns)@.len() == equipped_weapons@.len(),
        -WORLD_LIMIT_MILLI <= player_x <= WORLD_LIMIT_MILLI,
        -WORLD_LIMIT_MILLI <= player_y <= WORLD_LIMIT_MILLI,
        -WORLD_LIMIT_MILLI <= aim_x <= WORLD_LIMIT_MILLI,
        -WORLD_LIMIT_MILLI <= aim_y <= WORLD_LIMIT_MILLI,
        -1_000 <= facing_x <= 1_000,
        -1_000 <= facing_y <= 1_000,
        forall|i: int| 0 <= i < old(zone_projectiles)@.len() ==> (
        #[trigger] old(zone_projectiles)@[i]).wf(),
    ensures
        final(weapon_cooldowns)@.len() == old(weapon_cooldowns)@.len(),
        forall|i: int| 0 <= i < final(zone_projectiles)@.len() ==> (
        #[trigger] final(zone_projectiles)@[i]).wf(),
        ({
            let ok = {
                &&& zone_type@ == "space"@
                &&& player_hp > 0
                &&& (weapon_slot as int) < equipped_weapons@.len()
                &&& spec_can_fire(
                    old(weapon_cooldowns)@[weapon_slot as int],
                    spec_cooldown_of(equipped_weapons@[weapon_slot as int]),
                    server_time_ms,
                )
            };
            &&& (r is None <==> ok)
            &&& (r is Some ==> final(weapon_cooldowns)@ == old(weapon_cooldowns)@
                && final(zone_projectiles)@ == old(zone_projectiles)@)
            &&& (r is None ==> {
                &&& final(weapon_cooldowns)@ == old(weapon_cooldowns)@.update(
                    weapon_slot as int,
                    server_time_ms,
                )
                &&& final(zone_projectiles)@.len() == old(zone_projectiles)@.len() + 1
                &&& final(zone_projectiles)@[old(zone_projectiles)@.len() as int].owner_id
                    == player_id
                &&& final(zone_projectiles)@[old(zone_projectiles)@.len() as int].weapon_type
                    == equipped_weapons@[weapon_slot as int]
            })
        }),
{
    if !str_eq(zone_type, "space") {
        return Some("Combat not allowed in this zone".to_owned());
    }
    if player_hp == 0 {
        return Some("Cannot fire while dead".to_owned());
    }
    let slot = weapon_slot as usize;
    if slot >= equipped_weapons.len() {
        return Some("Invalid weapon slot".to_owned());
    }
    let weapon_type = equipped_weapons[slot];
    let config = get_weapon_config(weapon_type);
    let last_fired = weapon_cooldowns[slot];
    if server_time_ms < last_fired || server_time_ms - last_fired < config.cooldown_ms {
        return Some("Weapon on cooldown".to_owned());
    }
    weapon_cooldowns[slot] = server_time_ms;
    let ghost before = zone_projectiles@;
    let proj = create_projectile(
        projectile_id,
        player_id,
        player_x,
        player_y,
        facing_x,
        facing_y,
        weapon_type,
        aim_x,
        aim_y,
    );
    zone_projectiles.push(proj);
    proof {
        assert(spec_cooldown_of(weapon_type) == config.cooldown_ms);
        assert forall|i: int| 0 <= i < zone_projectiles@.len() implies (
        #[trigger] zone_projectiles@[i]).wf() by {
            if i < before.len() {
                assert(zone_projectiles@[i] == before[i]);
            }
        }
    }
    None
}

/// The cooldown of a weapon type, milliseconds.
pub open spec fn spec_cooldown_of(weapon_type: WeaponType) -> u64 {
    match weapon_type {
        WeaponType::Laser => 500,
        WeaponType::Missile => 2_000,
        WeaponType::Railgun => 4_000,
    }
}

/// Handle a respawn request: it succeeds exactly when the player is dead
/// with a death stamp at least the respawn delay in the past — at the
/// exact boundary the respawn goes through.  On success the stats are
/// fully restored.
pub fn handle_respawn(
    combat_stats: &mut CombatStats,
    death_time_ms: Option<u64>,
    server_time_ms: u64,
    spawn_x: i64,
    spawn_y: i64,
) -> (r: Option<RespawnOutcome>)
    requires
        old(combat_stats).wf(),
    ensures
        final(combat_stats).wf(),
        ({
            let ok = old(combat_stats).spec_is_dead() && match death_time_ms {
                Some(t) => server_time_ms >= t && server_time_ms - t >= RESPAWN_DELAY_MS,
                None => false,
            };
            &&& (r is Some <==> ok)
            &&& (r is None ==> *final(combat_stats) == *old(combat_stats))
            &&& (r is Some ==> {
                &&& final(combat_stats).hp == final(combat_stats).max_hp
                &&& final(combat_stats).shield == final(combat_stats).max_shield
                &&& final(combat_stats).last_damage_time_ms == 0
                &&& final(combat_stats).max_hp == old(combat_stats).max_hp
                &&& final(combat_stats).max_shield == old(combat_stats).max_shield
                &&& r->0.x == spawn_x
                &&& r->0.y == spawn_y
                &&& r->0.hp == final(combat_stats).hp
                &&& r->0.shield == final(combat_stats).shield
            })
        }),
{
    if !is_dead(combat_stats) {
        return None;
    }
    let death = match death_time_ms {
        Some(t) => t,
        None => {
            return None;
        },
    };
    if server_time_ms < death || server_time_ms - death < RESPAWN_DELAY_MS {
        return None;
    }
    reset_combat_stats(combat_stats);
    Some(
        RespawnOutcome { x: spawn_x, y: spawn_y, hp: combat_stats.hp, shield: combat_stats.shield },
    )
}

/// A combat event for the host to deliver.
pub enum CombatEvent {
    /// To the attacker: their shot connected.
    HitConfirm { target_player_id: u32, target_id: u32, damage: u64, target_hp: u64, target_shield: u64 },
    /// To the victim: they took damage.
    PlayerDamaged { target_player_id: u32, attacker_id: u32, damage: u64, hp: u64, shield: u64 },
    /// To the zone: a player died.
    Death { killer_id: u32, victim_id: u32 },
}

/// One tick of combat for a zone: in a combat (`space`) zone the
/// projectiles advance and collide; in every zone the shields of living,
/// connected players regenerate.  In a safe zone the projectiles are
/// handed back untouched.  Returns the events to deliver.
pub fn process_combat_tick(
    zone_type: &str,
    players: &Vec<CombatPlayerData>,
    combat_stats: &mut Vec<(u32, CombatStats)>,
    projectiles: Vec<Projectile>,
    dt_ms: u64,
    server_time_ms: u64,
) -> (r: (Vec<Projectile>, Vec<CombatEvent>))
    requires
        dt_ms <= 10_000,
        forall|i: int| 0 <= i < old(combat_stats)@.len() ==> (#[trigger] old(combat_stats)@[i]).1.wf(),
        forall|i: int| 0 <= i < projectiles@.len() ==> (#[trigger] projectiles@[i]).wf(),
        forall|i: int|
            0 <= i < players@.len() ==> -WORLD_LIMIT_MILLI <= (#[trigger] players@[i]).x
                <= WORLD_LIMIT_MILLI && -WORLD_LIMIT_MILLI <= players@[i].y <= WORLD_LIMIT_MILLI,
    ensures
        forall|i: int| 0 <= i < final(combat_stats)@.len() ==> (
        #[trigger] final(combat_stats)@[i]).1.wf(),
        final(combat_stats)@.len() == old(combat_stats)@.len(),
        forall|i: int| 0 <= i < r.0@.len() ==> (#[trigger] r.0@[i]).wf(),
        // Hit points never rise during a tick.
        forall|i: int|
            0 <= i < final(combat_stats)@.len() ==> (#[trigger] final(combat_stats)@[i]).0 == old(
                combat_stats,
            )@[i].0 && final(combat_stats)@[i].1.hp <= old(combat_stats)@[i].1.hp,
        // Combat is confined to combat zones: elsewhere no damage events
        // arise, the projectiles pass through untouched, and every entry
        // regenerates exactly one tick of shield.
        zone_type@ != "space"@ ==> r.1@.len() == 0 && r.0@ == projectiles@ && (forall|i: int|
            0 <= i < old(combat_stats)@.len() ==> spec_regened(
                old(combat_stats)@[i].1,
                (#[trigger] final(combat_stats)@[i]).1,
                server_time_ms,
            )),
        // With no projectiles in a combat zone the tick is regeneration
        // alone.
        zone_type@ == "space"@ && projectiles@.len() == 0 ==> r.0@.len() == 0 && r.1@.len() == 0
            && (forall|i: int|
            0 <= i < old(combat_stats)@.len() ==> spec_regened(
                old(combat_stats)@[i].1,
                (#[trigger] final(combat_stats)@[i]).1,
                server_time_ms,
            )),
{
    let mut events: Vec<CombatEvent> = Vec::new();

    if !str_eq(zone_type, "space") {
        // Safe zone: shields still regenerate; the projectiles pass
        // through untouched.
        let n = combat_stats.len();
        for i in 0..n
            invariant
                n == combat_stats@.len(),
                n == old(combat_stats)@.len(),
                forall|t: int| 0 <= t < combat_stats@.len() ==> (#[trigger] combat_stats@[t]).1.wf(),
                forall|t: int|
                    0 <= t < i ==> (#[trigger] combat_stats@[t]).0 == old(combat_stats)@[t].0
                        && spec_regened(
                        old(combat_stats)@[t].1,
                        combat_stats@[t].1,
                        server_time_ms,
                    ),
                forall|t: int|
                    i <= t < n ==> #[trigger] combat_stats@[t] == old(combat_stats)@[t],
        {
            let entry = &mut combat_stats[i];
            tick_shield_regen(&mut entry.1, server_time_ms);
        }
        return (projectiles, events);
    }

    // Collision targets: connected, living players.
    let mut targets: Vec<CollisionTarget> = Vec::new();
    let np = players.len();
    for i in 0..np
        invariant
            np == players@.len(),
            forall|t: int| 0 <= t < combat_stats@.len() ==> (#[trigger] combat_stats@[t]).1.wf(),
            combat_stats@.len() == old(combat_stats)@.len(),
            forall|t: int|
                0 <= t < targets@.len() ==> -WORLD_LIMIT_MILLI <= (#[trigger] targets@[t]).x
                    <= WORLD_LIMIT_MILLI && -WORLD_LIMIT_MILLI <= targets@[t].y
                    <= WORLD_LIMIT_MILLI,
            forall|t: int|
                0 <= t < players@.len() ==> -WORLD_LIMIT_MILLI <= (#[trigger] players@[t]).x
                    <= WORLD_LIMIT_MILLI && -WORLD_LIMIT_MILLI <= players@[t].y
                    <= WORLD_LIMIT_MILLI,
    {
        if !players[i].is_disconnected {
            let hp = match find_stats_index(combat_stats, players[i].id) {
                Some(si) => combat_stats[si].1.hp,
                None => 0,
            };
            targets.push(
                CollisionTarget { id: players[i].id, x: players[i].x, y: players[i].y, hp },
            );
        }
    }

    let result = process_projectiles(projectiles, &targets, combat_stats, dt_ms, server_time_ms);

    // Hits become events.
    let nh = result.hits.len();
    for i in 0..nh
        invariant
            nh == result.hits@.len(),
            forall|t: int| 0 <= t < combat_stats@.len() ==> (#[trigger] combat_stats@[t]).1.wf(),
            combat_stats@.len() == old(combat_stats)@.len(),
            result.hits@.len() == 0 ==> events@.len() == 0,
    {
        let hit = &result.hits[i];
        events.push(
            CombatEvent::HitConfirm {
                target_player_id: hit.projectile_owner_id,
                target_id: hit.target_id,
                damage: hit.damage.total_damage,
                target_hp: hit.damage.remaining_hp,
                target_shield: hit.damage.remaining_shield,
            },
        );
        events.push(
            CombatEvent::PlayerDamaged {
                target_player_id: hit.target_id,
                attacker_id: hit.projectile_owner_id,
                damage: hit.damage.total_damage,
                hp: hit.damage.remaining_hp,
                shield: hit.damage.remaining_shield,
            },
        );
        if hit.damage.killed {
            events.push(
                CombatEvent::Death {
                    killer_id: hit.projectile_owner_id,
                    victim_id: hit.target_id,
                },
            );
        }
    }

    // Shield regeneration for the living.
    let n = combat_stats.len();
    for i in 0..n
        invariant
            n == combat_stats@.len(),
            combat_stats@.len() == old(combat_stats)@.len(),
            forall|t: int| 0 <= t < combat_stats@.len() ==> (#[trigger] combat_stats@[t]).1.wf(),
            forall|t: int|
                0 <= t < combat_stats@.len() ==> (#[trigger] combat_stats@[t]).0 == old(
                    combat_stats,
                )@[t].0 && combat_stats@[t].1.hp <= old(combat_stats)@[t].1.hp,
            projectiles@.len() == 0 ==> (forall|t: int|
                0 <= t < i ==> spec_regened(
                    old(combat_stats)@[t].1,
                    (#[trigger] combat_stats@[t]).1,
                    server_time_ms,
                )) && (forall|t: int|
                i <= t < n ==> #[trigger] combat_stats@[t] == old(combat_stats)@[t]),
    {
        let alive = combat_stats[i].1.hp > 0;
        if alive {
            let entry = &mut combat_stats[i];
            tick_shield_regen(&mut entry.1, server_time_ms);
        }
    }

    (result.surviving, events)
}

fn find_stats_index(stats: &Vec<(u32, CombatStats)>, id: u32) -> (r: Option<usize>)
    ensures
        match r {
            Some(i) => i < stats@.len() && stats@[i as int].0 == id,
            None => true,
        },
{
    let n = stats.len();
    for i in 0..n
        invariant
            n == stats@.len(),
    {
        if stats[i].0 == id {
            return Some(i);
        }
    }
    None
}

} // verus!

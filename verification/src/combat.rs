//! Combat stats: hit points and shield, damage application, shield
//! regeneration, death and respawn.
//!
//! Shield absorbs damage first and the remainder reaches hit points; both
//! stay between zero and their maxima.  Times are in milliseconds.

use vstd::prelude::*;

verus! {

pub const DEFAULT_MAX_HP: u64 = 100;
pub const DEFAULT_MAX_SHIELD: u64 = 50;
/// Shield points regenerated per tick.
pub const DEFAULT_SHIELD_REGEN_RATE: u64 = 2;
/// Milliseconds after the last damage before the shield regenerates.
pub const DEFAULT_SHIELD_REGEN_DELAY_MS: u64 = 5_000;
/// Milliseconds a dead player must wait before respawning.
pub const RESPAWN_DELAY_MS: u64 = 5_000;

#[derive(Clone)]
pub struct CombatStats {
    pub max_hp: u64,
    pub hp: u64,
    pub max_shield: u64,
    pub shield: u64,
    /// Shield points regenerated per tick.
    pub shield_regen_rate: u64,
    /// Milliseconds after the last hit before the shield regenerates.
    pub shield_regen_delay_ms: u64,
    /// When damage was last received, milliseconds.
    pub last_damage_time_ms: u64,
}

pub struct DamageResult {
    /// Damage dealt in total (shield plus hit points).
    pub total_damage: u64,
    /// Damage absorbed by the shield.
    pub shield_damage: u64,
    /// Damage that reached hit points.
    pub hp_damage: u64,
    /// Whether the target died from this hit.
    pub killed: bool,
    pub remaining_hp: u64,
    pub remaining_shield: u64,
}

impl CombatStats {
    /// Hit points and shield stay at or below their maxima.
    pub open spec fn wf(&self) -> bool {
        &&& self.hp <= self.max_hp
        &&& self.shield <= self.max_shield
    }

    pub open spec fn spec_is_dead(&self) -> bool {
        self.hp == 0
    }
}

/// Fresh stats at the default maxima.
pub fn create_default_combat_stats() -> (r: CombatStats)
    ensures
        r.wf(),
        r.max_hp == DEFAULT_MAX_HP,
        r.hp == DEFAULT_MAX_HP,
        r.max_shield == DEFAULT_MAX_SHIELD,
        r.shield == DEFAULT_MAX_SHIELD,
        r.shield_regen_rate == DEFAULT_SHIELD_REGEN_RATE,
        r.shield_regen_delay_ms == DEFAULT_SHIELD_REGEN_DELAY_MS,
        r.last_damage_time_ms == 0,
{
    CombatStats {
        max_hp: DEFAULT_MAX_HP,
        hp: DEFAULT_MAX_HP,
        max_shield: DEFAULT_MAX_SHIELD,
        shield: DEFAULT_MAX_SHIELD,
        shield_regen_rate: DEFAULT_SHIELD_REGEN_RATE,
        shield_regen_delay_ms: DEFAULT_SHIELD_REGEN_DELAY_MS,
        last_damage_time_ms: 0,
    }
}

/// Apply damage: the shield absorbs first, the remainder reaches hit
/// points, and the last-damage time is stamped.  Hit points and shield
/// never leave `[0, max]`.
pub fn apply_damage(stats: &mut CombatStats, raw_damage: u64, server_time_ms: u64) -> (r:
    DamageResult)
    requires
        old(stats).wf(),
    ensures
        final(stats).wf(),
        r.shield_damage == if old(stats).shield < raw_damage {
            old(stats).shield
        } else {
            raw_damage
        },
        r.hp_damage == if old(stats).hp < raw_damage - r.shield_damage {
            old(stats).hp
        } else {
            (raw_damage - r.shield_damage) as u64
        },
        final(stats).shield == old(stats).shield - r.shield_damage,
        final(stats).hp == old(stats).hp - r.hp_damage,
        final(stats).last_damage_time_ms == server_time_ms,
        final(stats).max_hp == old(stats).max_hp,
        final(stats).max_shield == old(stats).max_shield,
        final(stats).shield_regen_rate == old(stats).shield_regen_rate,
        final(stats).shield_regen_delay_ms == old(stats).shield_regen_delay_ms,
        r.total_damage == raw_damage,
        r.killed == (final(stats).hp == 0),
        r.remaining_hp == final(stats).hp,
        r.remaining_shield == final(stats).shield,
{
    stats.last_damage_time_ms = server_time_ms;

    let shield_damage = if stats.shield < raw_damage {
        stats.shield
    } else {
        raw_damage
    };
    stats.shield = stats.shield - shield_damage;
    let remaining = raw_damage - shield_damage;

    let hp_damage = if stats.hp < remaining {
        stats.hp
    } else {
        remaining
    };
    stats.hp = stats.hp - hp_damage;

    let killed = stats.hp == 0;

    DamageResult {
        total_damage: raw_damage,
        shield_damage,
        hp_damage,
        killed,
        remaining_hp: stats.hp,
        remaining_shield: stats.shield,
    }
}

/// One tick of shield regeneration: everything but the shield is kept;
/// the shield gains one tick's rate, clamped to the maximum, only while
/// alive, below the maximum, and past the regeneration delay.
pub open spec fn spec_regened(o: CombatStats, n: CombatStats, now: u64) -> bool {
    &&& n.max_hp == o.max_hp
    &&& n.hp == o.hp
    &&& n.max_shield == o.max_shield
    &&& n.last_damage_time_ms == o.last_damage_time_ms
    &&& n.shield_regen_rate == o.shield_regen_rate
    &&& n.shield_regen_delay_ms == o.shield_regen_delay_ms
    &&& ({
        let idle = o.shield >= o.max_shield || o.hp == 0 || now < o.last_damage_time_ms || now
            - o.last_damage_time_ms < o.shield_regen_delay_ms;
        if idle {
            n.shield == o.shield
        } else {
            n.shield == if o.shield + o.shield_regen_rate > o.max_shield {
                o.max_shield
            } else {
                (o.shield + o.shield_regen_rate) as u64
            }
        }
    })
}

/// Regenerate the shield by one tick's worth, clamped to the maximum; only
/// while alive, below the maximum, and once the regeneration delay has
/// passed since the last damage.
pub fn tick_shield_regen(stats: &mut CombatStats, current_time_ms: u64)
    requires
        old(stats).wf(),
    ensures
        final(stats).wf(),
        spec_regened(*old(stats), *final(stats), current_time_ms),
        final(stats).max_hp == old(stats).max_hp,
        final(stats).hp == old(stats).hp,
        final(stats).max_shield == old(stats).max_shield,
        final(stats).last_damage_time_ms == old(stats).last_damage_time_ms,
        final(stats).shield_regen_rate == old(stats).shield_regen_rate,
        final(stats).shield_regen_delay_ms == old(stats).shield_regen_delay_ms,
        ({
            let regen = old(stats).shield >= old(stats).max_shield || old(stats).hp == 0
                || current_time_ms < old(stats).last_damage_time_ms || current_time_ms - old(
                stats,
            ).last_damage_time_ms < old(stats).shield_regen_delay_ms;
            if regen {
                final(stats).shield == old(stats).shield
            } else {
                final(stats).shield == if old(stats).shield + old(stats).shield_regen_rate > old(
                    stats,
                ).max_shield {
                    old(stats).max_shield
                } else {
                    (old(stats).shield + old(stats).shield_regen_rate) as u64
                }
            }
        }),
{
    if stats.shield >= stats.max_shield {
        return ;
    }
    if stats.hp == 0 {
        return ;
    }
    if current_time_ms < stats.last_damage_time_ms {
        return ;
    }
    let elapsed = current_time_ms - stats.last_damage_time_ms;
    if elapsed < stats.shield_regen_delay_ms {
        return ;
    }
    if stats.max_shield - stats.shield < stats.shield_regen_rate {
        stats.shield = stats.max_shield;
    } else {
        stats.shield = stats.shield + stats.shield_regen_rate;
    }
}

/// Whether the entity is dead.
pub fn is_dead(stats: &CombatStats) -> (r: bool)
    ensures
        r == stats.spec_is_dead(),
{
    stats.hp == 0
}

/// Restore full hit points and shield, clearing the last-damage stamp.
pub fn reset_combat_stats(stats: &mut CombatStats)
    ensures
        final(stats).wf(),
        final(stats).hp == final(stats).max_hp,
        final(stats).shield == final(stats).max_shield,
        final(stats).last_damage_time_ms == 0,
        final(stats).max_hp == old(stats).max_hp,
        final(stats).max_shield == old(stats).max_shield,
        final(stats).shield_regen_rate == old(stats).shield_regen_rate,
        final(stats).shield_regen_delay_ms == old(stats).shield_regen_delay_ms,
{
    stats.hp = stats.max_hp;
    stats.shield = stats.max_shield;
    stats.last_damage_time_ms = 0;
}

/// After any damage event, hit points and shield remain within `[0, max]`.
pub proof fn lemma_damage_keeps_bounds(stats: &CombatStats)
    requires
        stats.wf(),
    ensures
        0 <= stats.hp <= stats.max_hp,
        0 <= stats.shield <= stats.max_shield,
{
}

} // verus!

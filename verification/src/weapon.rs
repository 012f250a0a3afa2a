//! Weapons and projectiles: the fixed weapon table, projectile creation,
//! and the per-tick advance-and-collide step.
//!
//! Distances are in milli-units, damage in whole points, cooldowns in
//! milliseconds.

use vstd::prelude::*;

use crate::combat::{apply_damage, CombatStats, DamageResult};
use crate::fixed::{dist_sq, isqrt, lemma_isqrt_bounds, spec_dist_sq, spec_isqrt};
use crate::movement::{clamp_world, scale_vector, spec_displacement, spec_scale_vector};
use crate::player::WORLD_LIMIT_MILLI;

verus! {

#[derive(Clone, Copy, PartialEq, Eq, Structural, Debug, Hash)]
pub enum WeaponType {
    Laser,
    Missile,
    Railgun,
}

impl WeaponType {
    /// The weapon named by a wire index, if any.
    pub fn from_u32(v: u32) -> (r: Option<Self>)
        ensures
            v == 0 ==> r == Some(WeaponType::Laser),
            v == 1 ==> r == Some(WeaponType::Missile),
            v == 2 ==> r == Some(WeaponType::Railgun),
            v >= 3 ==> r is None,
    {
        match v {
            0 => Some(WeaponType::Laser),
            1 => Some(WeaponType::Missile),
            2 => Some(WeaponType::Railgun),
            _ => None,
        }
    }
}

/// Fixed stats of one weapon type.
#[derive(Clone, Copy, PartialEq, Eq, Structural, Debug)]
pub struct WeaponConfig {
    pub weapon_type: WeaponType,
    /// Damage per hit, whole points.
    pub damage: u64,
    /// Maximum travel, milli-units.
    pub range_milli: i64,
    /// Cooldown between shots, milliseconds.
    pub cooldown_ms: u64,
    /// Projectile speed, milli-units per second.
    pub speed_milli: u64,
    /// Splash radius, milli-units; zero means no splash.
    pub splash_milli: i64,
    pub piercing: bool,
}

/// Ship hitbox radius, milli-units.
pub const SHIP_HITBOX_RADIUS_MILLI: i64 = 2_000;

/// The authoritative weapon table.
pub fn get_weapon_config(weapon_type: WeaponType) -> (r: WeaponConfig)
    ensures
        r.weapon_type == weapon_type,
        weapon_type is Laser ==> r == (WeaponConfig {
            weapon_type: WeaponType::Laser,
            damage: 8u64,
            range_milli: 150_000i64,
            cooldown_ms: 500u64,
            speed_milli: 800_000u64,
            splash_milli: 0i64,
            piercing: false,
        }),
        weapon_type is Missile ==> r == (WeaponConfig {
            weapon_type: WeaponType::Missile,
            damage: 25u64,
            range_milli: 300_000i64,
            cooldown_ms: 2_000u64,
            speed_milli: 400_000u64,
            splash_milli: 30_000i64,
            piercing: false,
        }),
        weapon_type is Railgun ==> r == (WeaponConfig {
            weapon_type: WeaponType::Railgun,
            damage: 40u64,
            range_milli: 400_000i64,
            cooldown_ms: 4_000u64,
            speed_milli: 1_200_000u64,
            splash_milli: 0i64,
            piercing: true,
        }),
        r.damage > 0,
        r.range_milli > 0,
        r.speed_milli >= 1 && r.speed_milli <= 2_000_000,
        r.splash_milli >= 0,
        r.cooldown_ms > 0,
{
    match weapon_type {
        WeaponType::Laser => WeaponConfig {
            weapon_type: WeaponType::Laser,
            damage: 8,
            range_milli: 150_000,
            cooldown_ms: 500,
            speed_milli: 800_000,
            splash_milli: 0,
            piercing: false,
        },
        WeaponType::Missile => WeaponConfig {
            weapon_type: WeaponType::Missile,
            damage: 25,
            range_milli: 300_000,
            cooldown_ms: 2_000,
            speed_milli: 400_000,
            splash_milli: 30_000,
            piercing: false,
        },
        WeaponType::Railgun => WeaponConfig {
            weapon_type: WeaponType::Railgun,
            damage: 40,
            range_milli: 400_000,
            cooldown_ms: 4_000,
            speed_milli: 1_200_000,
            splash_milli: 0,
            piercing: true,
        },
    }
}

pub struct Projectile {
    pub id: u32,
    pub owner_id: u32,
    pub weapon_type: WeaponType,
    /// Position, milli-units.
    pub x: i64,
    pub y: i64,
    /// Velocity, milli-units per second.
    pub vx: i64,
    pub vy: i64,
    /// Travel budget, milli-units.
    pub max_range_milli: i64,
    /// Distance covered so far, milli-units.
    pub distance_traveled_milli: i64,
    /// Players already hit (piercing weapons pass through).
    pub hit_ids: Vec<u32>,
}

impl Projectile {
    /// The projectile never overstays its range, never exceeds its
    /// weapon's speed, never lists its owner as hit, and stays in the
    /// world.
    pub open spec fn wf(&self) -> bool {
        &&& 0 <= self.distance_traveled_milli <= self.max_range_milli
        &&& -2_000_000 <= self.vx <= 2_000_000
        &&& -2_000_000 <= self.vy <= 2_000_000
        &&& -WORLD_LIMIT_MILLI <= self.x <= WORLD_LIMIT_MILLI
        &&& -WORLD_LIMIT_MILLI <= self.y <= WORLD_LIMIT_MILLI
        &&& forall|i: int| 0 <= i < self.hit_ids@.len() ==> #[trigger] self.hit_ids@[i]
            != self.owner_id
    }
}

/// Create a projectile at the owner's position, headed toward the aim
/// point — or along the owner's facing when the aim sits on the owner —
/// at the weapon's speed.
pub fn create_projectile(
    id: u32,
    owner_id: u32,
    owner_x: i64,
    owner_y: i64,
    facing_x: i64,
    facing_y: i64,
    weapon_type: WeaponType,
    aim_x: i64,
    aim_y: i64,
) -> (r: Projectile)
    requires
        -WORLD_LIMIT_MILLI <= owner_x <= WORLD_LIMIT_MILLI,
        -WORLD_LIMIT_MILLI <= owner_y <= WORLD_LIMIT_MILLI,
        -WORLD_LIMIT_MILLI <= aim_x <= WORLD_LIMIT_MILLI,
        -WORLD_LIMIT_MILLI <= aim_y <= WORLD_LIMIT_MILLI,
        -1_000 <= facing_x <= 1_000,
        -1_000 <= facing_y <= 1_000,
    ensures
        r.wf(),
        r.id == id,
        r.owner_id == owner_id,
        r.weapon_type == weapon_type,
        r.x == owner_x,
        r.y == owner_y,
        r.distance_traveled_milli == 0,
        r.hit_ids@.len() == 0,
        r.max_range_milli == get_weapon_config_range(weapon_type),
        // The velocity never exceeds the weapon's speed, and it points
        // toward the aim — or along the facing when the aim sits on the
        // owner.
        r.vx * r.vx + r.vy * r.vy <= spec_weapon_speed(weapon_type) * spec_weapon_speed(
            weapon_type,
        ),
        // The velocity is exactly the aim direction (or the facing, for
        // a degenerate aim) normalised to the weapon's speed.
        ({
            let dx = aim_x - owner_x;
            let dy = aim_y - owner_y;
            let (ux, uy): (int, int) = if -1 <= dx <= 1 && -1 <= dy <= 1 {
                (facing_x as int, facing_y as int)
            } else {
                (dx as int, dy as int)
            };
            r.vx == spec_scale_vector(ux, uy, 1, spec_weapon_speed(weapon_type)).0 && r.vy
                == spec_scale_vector(ux, uy, 1, spec_weapon_speed(weapon_type)).1
        }),
        (-1 <= aim_x - owner_x <= 1 && -1 <= aim_y - owner_y <= 1) ==> {
            &&& (facing_x >= 0 ==> r.vx >= 0) && (facing_x <= 0 ==> r.vx <= 0)
            &&& (facing_y >= 0 ==> r.vy >= 0) && (facing_y <= 0 ==> r.vy <= 0)
            &&& (facing_x == 0 ==> r.vx == 0) && (facing_y == 0 ==> r.vy == 0)
        },
        !(-1 <= aim_x - owner_x <= 1 && -1 <= aim_y - owner_y <= 1) ==> {
            &&& (aim_x >= owner_x ==> r.vx >= 0) && (aim_x <= owner_x ==> r.vx <= 0)
            &&& (aim_y >= owner_y ==> r.vy >= 0) && (aim_y <= owner_y ==> r.vy <= 0)
            &&& (aim_x == owner_x ==> r.vx == 0) && (aim_y == owner_y ==> r.vy == 0)
        },
{
    let config = get_weapon_config(weapon_type);

    let dx = aim_x - owner_x;
    let dy = aim_y - owner_y;

    // A degenerate aim point falls back to the owner's facing.
    let degenerate = -1 <= dx && dx <= 1 && -1 <= dy && dy <= 1;
    let (ux, uy) = if degenerate {
        (facing_x, facing_y)
    } else {
        let cx = if dx > 2_000_000_000 {
            2_000_000_000
        } else if dx < -2_000_000_000 {
            -2_000_000_000
        } else {
            dx
        };
        let cy = if dy > 2_000_000_000 {
            2_000_000_000
        } else if dy < -2_000_000_000 {
            -2_000_000_000
        } else {
            dy
        };
        (cx, cy)
    };
    let (vx, vy) = scale_vector(ux, uy, 1, config.speed_milli);

    Projectile {
        id,
        owner_id,
        weapon_type,
        x: owner_x,
        y: owner_y,
        vx,
        vy,
        max_range_milli: config.range_milli,
        distance_traveled_milli: 0,
        hit_ids: Vec::new(),
    }
}

/// The range of a weapon type, milli-units.
pub open spec fn get_weapon_config_range(weapon_type: WeaponType) -> int {
    match weapon_type {
        WeaponType::Laser => 150_000,
        WeaponType::Missile => 300_000,
        WeaponType::Railgun => 400_000,
    }
}

/// The per-hit damage of a weapon type, whole points.
pub open spec fn spec_weapon_damage(weapon_type: WeaponType) -> int {
    match weapon_type {
        WeaponType::Laser => 8,
        WeaponType::Missile => 25,
        WeaponType::Railgun => 40,
    }
}

/// The splash radius of a weapon type, milli-units.
pub open spec fn spec_weapon_splash(weapon_type: WeaponType) -> int {
    match weapon_type {
        WeaponType::Laser => 0,
        WeaponType::Missile => 30_000,
        WeaponType::Railgun => 0,
    }
}

/// The projectile speed of a weapon type, milli-units per second.
pub open spec fn spec_weapon_speed(weapon_type: WeaponType) -> int {
    match weapon_type {
        WeaponType::Laser => 800_000,
        WeaponType::Missile => 400_000,
        WeaponType::Railgun => 1_200_000,
    }
}

/// Whether the weapon passes through its targets.
pub open spec fn spec_weapon_piercing(weapon_type: WeaponType) -> bool {
    weapon_type is Railgun
}

/// How far a projectile moves in one tick, milli-units.
pub open spec fn spec_move_len(p: Projectile, dt_ms: nat) -> int {
    let mx = spec_displacement(p.vx as int, dt_ms);
    let my = spec_displacement(p.vy as int, dt_ms);
    spec_isqrt(mx * mx + my * my)
}

/// Whether the tick's step exhausts the projectile's travel budget: the
/// projectile is dropped as soon as its accumulated distance reaches its
/// range.
pub open spec fn spec_expires(p: Projectile, dt_ms: nat) -> bool {
    p.distance_traveled_milli >= p.max_range_milli - spec_move_len(p, dt_ms)
}

/// `q` is `p` advanced by one tick.
pub open spec fn spec_advanced(p: Projectile, q: Projectile, dt_ms: nat) -> bool {
    &&& q.id == p.id
    &&& q.owner_id == p.owner_id
    &&& q.weapon_type == p.weapon_type
    &&& q.x == clamp_world(p.x + spec_displacement(p.vx as int, dt_ms))
    &&& q.y == clamp_world(p.y + spec_displacement(p.vy as int, dt_ms))
    &&& q.vx == p.vx
    &&& q.vy == p.vy
    &&& q.max_range_milli == p.max_range_milli
    &&& q.distance_traveled_milli == p.distance_traveled_milli + spec_move_len(p, dt_ms)
}

/// With nothing to hit, the survivors are exactly the projectiles that
/// stay within their budget, advanced, in order.
pub open spec fn spec_pass_through(ps: Seq<Projectile>, out: Seq<Projectile>, dt_ms: nat) -> bool
    decreases ps.len(),
{
    if ps.len() == 0 {
        out.len() == 0
    } else if spec_expires(ps[0], dt_ms) {
        spec_pass_through(ps.drop_first(), out, dt_ms)
    } else {
        &&& out.len() >= 1
        &&& spec_advanced(ps[0], out[0], dt_ms)
        &&& out[0].hit_ids@ == ps[0].hit_ids@
        &&& spec_pass_through(ps.drop_first(), out.drop_first(), dt_ms)
    }
}

proof fn lemma_pass_through_push_expired(
    ps: Seq<Projectile>,
    out: Seq<Projectile>,
    p: Projectile,
    dt_ms: nat,
)
    requires
        spec_pass_through(ps, out, dt_ms),
        spec_expires(p, dt_ms),
    ensures
        spec_pass_through(ps.push(p), out, dt_ms),
    decreases ps.len(),
{
    if ps.len() == 0 {
        assert(ps.push(p)[0] == p);
        assert(ps.push(p).drop_first() =~= Seq::<Projectile>::empty());
        assert(spec_pass_through(Seq::<Projectile>::empty(), out, dt_ms));
    } else {
        assert(ps.push(p).drop_first() =~= ps.drop_first().push(p));
        assert(ps.push(p)[0] == ps[0]);
        if spec_expires(ps[0], dt_ms) {
            lemma_pass_through_push_expired(ps.drop_first(), out, p, dt_ms);
        } else {
            lemma_pass_through_push_expired(ps.drop_first(), out.drop_first(), p, dt_ms);
        }
    }
}

proof fn lemma_pass_through_push_alive(
    ps: Seq<Projectile>,
    out: Seq<Projectile>,
    p: Projectile,
    q: Projectile,
    dt_ms: nat,
)
    requires
        spec_pass_through(ps, out, dt_ms),
        !spec_expires(p, dt_ms),
        spec_advanced(p, q, dt_ms),
        q.hit_ids@ == p.hit_ids@,
    ensures
        spec_pass_through(ps.push(p), out.push(q), dt_ms),
    decreases ps.len(),
{
    if ps.len() == 0 {
        assert(ps.push(p)[0] == p);
        assert(out.push(q)[0] == q);
        assert(ps.push(p).drop_first() =~= Seq::<Projectile>::empty());
        assert(out.push(q).drop_first() =~= Seq::<Projectile>::empty());
        assert(spec_pass_through(Seq::<Projectile>::empty(), Seq::<Projectile>::empty(), dt_ms));
    } else {
        assert(ps.push(p).drop_first() =~= ps.drop_first().push(p));
        assert(ps.push(p)[0] == ps[0]);
        if spec_expires(ps[0], dt_ms) {
            lemma_pass_through_push_alive(ps.drop_first(), out, p, q, dt_ms);
        } else {
            assert(out.push(q)[0] == out[0]);
            assert(out.push(q).drop_first() =~= out.drop_first().push(q));
            lemma_pass_through_push_alive(ps.drop_first(), out.drop_first(), p, q, dt_ms);
        }
    }
}

/// Damage soaked by the shield.
pub open spec fn spec_shield_damage(s: CombatStats, raw: int) -> int {
    if s.shield < raw {
        s.shield as int
    } else {
        raw
    }
}

/// Damage that reaches the hull after the shield.
pub open spec fn spec_hp_damage(s: CombatStats, raw: int) -> int {
    let sd = spec_shield_damage(s, raw);
    if s.hp < raw - sd {
        s.hp as int
    } else {
        raw - sd
    }
}

/// The target never takes damage from this projectile: it is the owner,
/// already dead, or already on the hit list.
pub open spec fn spec_duel_skips(p: Projectile, t: CollisionTarget) -> bool {
    t.id == p.owner_id || t.hp == 0 || p.hit_ids@.contains(t.id)
}

/// Squared distance from the advanced projectile to the target.
pub open spec fn spec_duel_dist_sq(p: Projectile, t: CollisionTarget, dt_ms: nat) -> int {
    let qx = clamp_world(p.x + spec_displacement(p.vx as int, dt_ms));
    let qy = clamp_world(p.y + spec_displacement(p.vy as int, dt_ms));
    spec_dist_sq(qx, qy, t.x as int, t.y as int)
}

/// A direct hit: the advanced projectile sits inside the hitbox.
pub open spec fn spec_duel_direct(p: Projectile, t: CollisionTarget, dt_ms: nat) -> bool {
    spec_duel_dist_sq(p, t, dt_ms) <= SHIP_HITBOX_RADIUS_MILLI * SHIP_HITBOX_RADIUS_MILLI
}

/// The projectile touches the target: a direct hit, or inside the
/// splash ring of a splash weapon.
pub open spec fn spec_duel_touches(p: Projectile, t: CollisionTarget, dt_ms: nat) -> bool {
    ||| spec_duel_direct(p, t, dt_ms)
    ||| (spec_weapon_splash(p.weapon_type) > 0 && spec_duel_dist_sq(p, t, dt_ms) <= (
    spec_weapon_splash(p.weapon_type) + SHIP_HITBOX_RADIUS_MILLI) * (spec_weapon_splash(
        p.weapon_type,
    ) + SHIP_HITBOX_RADIUS_MILLI))
}

/// The points a touching projectile deals: full damage inside the
/// hitbox; otherwise linear falloff over the splash ring, floored at
/// one point.
pub open spec fn spec_duel_raw_damage(p: Projectile, t: CollisionTarget, dt_ms: nat) -> int {
    if spec_duel_direct(p, t, dt_ms) {
        spec_weapon_damage(p.weapon_type)
    } else {
        let rr = spec_weapon_splash(p.weapon_type) + SHIP_HITBOX_RADIUS_MILLI;
        let scaled = spec_weapon_damage(p.weapon_type) * (rr - spec_isqrt(
            spec_duel_dist_sq(p, t, dt_ms),
        )) / rr;
        if scaled > 0 {
            scaled
        } else {
            1
        }
    }
}

/// The exact outcome of one tick with a single projectile, a single
/// target and its single stats entry.
pub open spec fn spec_duel_outcome(
    p: Projectile,
    t: CollisionTarget,
    s0: (u32, CombatStats),
    surv: Seq<Projectile>,
    hits: Seq<ProjectileHit>,
    sn: Seq<(u32, CombatStats)>,
    dt_ms: nat,
    server_time_ms: u64,
) -> bool {
    if spec_expires(p, dt_ms) {
        surv.len() == 0 && hits.len() == 0 && sn == seq![s0]
    } else if spec_duel_skips(p, t) || !spec_duel_touches(p, t, dt_ms) {
        &&& hits.len() == 0
        &&& sn == seq![s0]
        &&& surv.len() == 1
        &&& spec_advanced(p, surv[0], dt_ms)
        &&& surv[0].hit_ids@ == p.hit_ids@
    } else {
        let raw = spec_duel_raw_damage(p, t, dt_ms);
        let sd = spec_shield_damage(s0.1, raw);
        let hd = spec_hp_damage(s0.1, raw);
        &&& hits.len() == 1
        &&& hits[0].projectile_owner_id == p.owner_id
        &&& hits[0].projectile_weapon_type == p.weapon_type
        &&& hits[0].target_id == t.id
        &&& hits[0].damage.total_damage == raw
        &&& hits[0].damage.shield_damage == sd
        &&& hits[0].damage.hp_damage == hd
        &&& hits[0].damage.killed == (s0.1.hp - hd == 0)
        &&& hits[0].damage.remaining_hp == s0.1.hp - hd
        &&& hits[0].damage.remaining_shield == s0.1.shield - sd
        &&& sn.len() == 1
        &&& sn[0].0 == s0.0
        &&& sn[0].1.shield == s0.1.shield - sd
        &&& sn[0].1.hp == s0.1.hp - hd
        &&& sn[0].1.last_damage_time_ms == server_time_ms
        &&& sn[0].1.max_hp == s0.1.max_hp
        &&& sn[0].1.max_shield == s0.1.max_shield
        &&& if spec_duel_direct(p, t, dt_ms) && !spec_weapon_piercing(p.weapon_type) {
            surv.len() == 0
        } else {
            &&& surv.len() == 1
            &&& spec_advanced(p, surv[0], dt_ms)
            &&& surv[0].hit_ids@ == p.hit_ids@.push(t.id)
        }
    }
}

/// The state between the single duel's collision pass and its survivor
/// bookkeeping.
pub open spec fn spec_duel_mid(
    p0: Projectile,
    t: CollisionTarget,
    s0: (u32, CombatStats),
    p: Projectile,
    consumed: bool,
    hits: Seq<ProjectileHit>,
    sn: Seq<(u32, CombatStats)>,
    dt_ms: nat,
    server_time_ms: u64,
) -> bool {
    &&& spec_advanced(p0, p, dt_ms)
    &&& if spec_duel_skips(p0, t) || !spec_duel_touches(p0, t, dt_ms) {
        &&& hits.len() == 0
        &&& sn == seq![s0]
        &&& p.hit_ids@ == p0.hit_ids@
        &&& !consumed
    } else {
        let raw = spec_duel_raw_damage(p0, t, dt_ms);
        let sd = spec_shield_damage(s0.1, raw);
        let hd = spec_hp_damage(s0.1, raw);
        &&& hits.len() == 1
        &&& hits[0].projectile_owner_id == p0.owner_id
        &&& hits[0].projectile_weapon_type == p0.weapon_type
        &&& hits[0].target_id == t.id
        &&& hits[0].damage.total_damage == raw
        &&& hits[0].damage.shield_damage == sd
        &&& hits[0].damage.hp_damage == hd
        &&& hits[0].damage.killed == (s0.1.hp - hd == 0)
        &&& hits[0].damage.remaining_hp == s0.1.hp - hd
        &&& hits[0].damage.remaining_shield == s0.1.shield - sd
        &&& sn.len() == 1
        &&& sn[0].0 == s0.0
        &&& sn[0].1.shield == s0.1.shield - sd
        &&& sn[0].1.hp == s0.1.hp - hd
        &&& sn[0].1.last_damage_time_ms == server_time_ms
        &&& sn[0].1.max_hp == s0.1.max_hp
        &&& sn[0].1.max_shield == s0.1.max_shield
        &&& p.hit_ids@ == p0.hit_ids@.push(t.id)
        &&& consumed == (spec_duel_direct(p0, t, dt_ms) && !spec_weapon_piercing(p0.weapon_type))
    }
}

/// Spatial data of one potential target.
pub struct CollisionTarget {
    pub id: u32,
    pub x: i64,
    pub y: i64,
    pub hp: u64,
}

/// One registered hit.
pub struct ProjectileHit {
    pub projectile_owner_id: u32,
    pub projectile_weapon_type: WeaponType,
    pub target_id: u32,
    pub damage: DamageResult,
}

pub struct ProcessProjectilesResult {
    pub surviving: Vec<Projectile>,
    pub hits: Vec<ProjectileHit>,
}

/// The hit names a live listed target.
pub open spec fn spec_hits_live_target(h: ProjectileHit, targets: Seq<CollisionTarget>) -> bool {
    exists|t: int|
        0 <= t < targets.len() && (#[trigger] targets[t]).id == h.target_id && targets[t].hp > 0
}

/// Advance every projectile by one tick and resolve collisions: a
/// projectile expires once its travel reaches its range; a target within the hitbox takes
/// the full weapon damage (consuming a non-piercing projectile); a
/// splash weapon deals linear-falloff damage (at least one point) within
/// its splash ring.  A projectile never hits its owner, a dead target, or
/// the same target twice.
pub fn process_projectiles(
    projectiles: Vec<Projectile>,
    targets: &Vec<CollisionTarget>,
    stats: &mut Vec<(u32, CombatStats)>,
    dt_ms: u64,
    server_time_ms: u64,
) -> (r: ProcessProjectilesResult)
    requires
        dt_ms <= 10_000,
        forall|i: int| 0 <= i < projectiles@.len() ==> (#[trigger] projectiles@[i]).wf(),
        forall|i: int| 0 <= i < old(stats)@.len() ==> (#[trigger] old(stats)@[i]).1.wf(),
        forall|i: int|
            0 <= i < targets@.len() ==> -WORLD_LIMIT_MILLI <= (#[trigger] targets@[i]).x
                <= WORLD_LIMIT_MILLI && -WORLD_LIMIT_MILLI <= targets@[i].y <= WORLD_LIMIT_MILLI,
    ensures
        forall|i: int| 0 <= i < r.surviving@.len() ==> (#[trigger] r.surviving@[i]).wf(),
        forall|i: int| 0 <= i < final(stats)@.len() ==> (#[trigger] final(stats)@[i]).1.wf(),
        final(stats)@.len() == old(stats)@.len(),
        forall|i: int|
            0 <= i < final(stats)@.len() ==> (#[trigger] final(stats)@[i]).0 == old(stats)@[i].0
                && final(stats)@[i].1.max_hp == old(stats)@[i].1.max_hp
                && final(stats)@[i].1.max_shield == old(stats)@[i].1.max_shield,
        // No projectile ever damages its own owner.
        forall|k: int|
            0 <= k < r.hits@.len() ==> (#[trigger] r.hits@[k]).target_id
                != r.hits@[k].projectile_owner_id,
        // Every survivor sits strictly inside its travel budget.
        forall|i: int|
            0 <= i < r.surviving@.len() ==> (#[trigger] r.surviving@[i]).distance_traveled_milli
                < r.surviving@[i].max_range_milli,
        // Every hit names a live listed target.
        forall|k: int|
            0 <= k < r.hits@.len() ==> spec_hits_live_target(#[trigger] r.hits@[k], targets@),
        // A single projectile never hits the same target twice.
        projectiles@.len() == 1 ==> forall|k1: int, k2: int|
            0 <= k1 < k2 < r.hits@.len() ==> (#[trigger] r.hits@[k1]).target_id != (
            #[trigger] r.hits@[k2]).target_id,
        // Hit points never rise during a tick.
        forall|i: int|
            0 <= i < final(stats)@.len() ==> (#[trigger] final(stats)@[i]).1.hp
                <= old(stats)@[i].1.hp,
        // With no projectiles there is nothing to do.
        projectiles@.len() == 0 ==> r.surviving@.len() == 0 && r.hits@.len() == 0
            && final(stats)@ == old(stats)@,
        // With nothing to hit, every projectile advances or expires,
        // exactly and in order.
        targets@.len() == 0 ==> r.hits@.len() == 0 && final(stats)@ == old(stats)@
            && spec_pass_through(projectiles@, r.surviving@, dt_ms as nat),
        // One projectile against one target is resolved exactly.
        projectiles@.len() == 1 && targets@.len() == 1 && old(stats)@.len() == 1 && old(
            stats,
        )@[0].0 == targets@[0].id ==> spec_duel_outcome(
            projectiles@[0],
            targets@[0],
            old(stats)@[0],
            r.surviving@,
            r.hits@,
            final(stats)@,
            dt_ms as nat,
            server_time_ms,
        ),
{
    let mut surviving: Vec<Projectile> = Vec::new();
    let mut hits: Vec<ProjectileHit> = Vec::new();
    let n = projectiles.len();
    let mut projectiles = projectiles;

    for pi in 0..n
        invariant
            n == projectiles@.len(),
            dt_ms <= 10_000,
            forall|i: int| 0 <= i < projectiles@.len() ==> (#[trigger] projectiles@[i]).wf(),
            forall|i: int| 0 <= i < surviving@.len() ==> (#[trigger] surviving@[i]).wf(),
            forall|i: int| 0 <= i < stats@.len() ==> (#[trigger] stats@[i]).1.wf(),
            stats@.len() == old(stats)@.len(),
            forall|i: int|
                0 <= i < stats@.len() ==> (#[trigger] stats@[i]).0 == old(stats)@[i].0
                    && stats@[i].1.max_hp == old(stats)@[i].1.max_hp && stats@[i].1.max_shield
                    == old(stats)@[i].1.max_shield,
            forall|i: int|
                0 <= i < targets@.len() ==> -WORLD_LIMIT_MILLI <= (#[trigger] targets@[i]).x
                    <= WORLD_LIMIT_MILLI && -WORLD_LIMIT_MILLI <= targets@[i].y
                    <= WORLD_LIMIT_MILLI,
            forall|k: int|
                0 <= k < hits@.len() ==> (#[trigger] hits@[k]).target_id
                    != hits@[k].projectile_owner_id,
            forall|i: int|
                0 <= i < surviving@.len() ==> (#[trigger] surviving@[i]).distance_traveled_milli
                    < surviving@[i].max_range_milli,
            forall|k: int|
                0 <= k < hits@.len() ==> spec_hits_live_target(#[trigger] hits@[k], targets@),
            projectiles@.len() == 1 ==> forall|k1: int, k2: int|
                0 <= k1 < k2 < hits@.len() ==> (#[trigger] hits@[k1]).target_id != (
                #[trigger] hits@[k2]).target_id,
            projectiles@.len() == 1 && pi == 0 ==> hits@.len() == 0,
            forall|i: int|
                0 <= i < stats@.len() ==> (#[trigger] stats@[i]).1.hp <= old(stats)@[i].1.hp,
            projectiles@.len() == 0 ==> surviving@.len() == 0 && hits@.len() == 0 && stats@
                == old(stats)@,
            targets@.len() == 0 ==> hits@.len() == 0 && stats@ == old(stats)@
                && spec_pass_through(projectiles@.take(pi as int), surviving@, dt_ms as nat),
            (projectiles@.len() == 1 && targets@.len() == 1 && old(stats)@.len() == 1 && old(
                stats,
            )@[0].0 == targets@[0].id) ==> if pi == 0 {
                surviving@.len() == 0 && hits@.len() == 0 && stats@ == old(stats)@
            } else {
                spec_duel_outcome(
                    projectiles@[0],
                    targets@[0],
                    old(stats)@[0],
                    surviving@,
                    hits@,
                    stats@,
                    dt_ms as nat,
                    server_time_ms,
                )
            },
    {
        let proj = &projectiles[pi];
        let config = get_weapon_config(proj.weapon_type);

        // Advance.
        let mx = movement_step(proj.vx, dt_ms);
        let my = movement_step(proj.vy, dt_ms);
        let new_x = clamp_coord(proj.x + mx);
        let new_y = clamp_coord(proj.y + my);
        let move_dist = step_length(mx, my);

        proof {
            assert(move_dist == spec_move_len(projectiles@[pi as int], dt_ms as nat));
        }
        if proj.distance_traveled_milli >= proj.max_range_milli - move_dist {
            // Out of range: the projectile expires.
            proof {
                assert(spec_expires(projectiles@[pi as int], dt_ms as nat));
                if targets@.len() == 0 {
                    assert(projectiles@.take(pi as int + 1) =~= projectiles@.take(
                        pi as int,
                    ).push(projectiles@[pi as int]));
                    lemma_pass_through_push_expired(
                        projectiles@.take(pi as int),
                        surviving@,
                        projectiles@[pi as int],
                        dt_ms as nat,
                    );
                }
                if projectiles@.len() == 1 && targets@.len() == 1 && old(stats)@.len() == 1
                    && old(stats)@[0].0 == targets@[0].id && pi == 0 {
                    assert(stats@ =~= seq![old(stats)@[0]]);
                }
            }
        } else {
            let mut p = Projectile {
                id: proj.id,
                owner_id: proj.owner_id,
                weapon_type: proj.weapon_type,
                x: new_x,
                y: new_y,
                vx: proj.vx,
                vy: proj.vy,
                max_range_milli: proj.max_range_milli,
                distance_traveled_milli: proj.distance_traveled_milli + move_dist,
                hit_ids: clone_hit_ids(&proj.hit_ids),
            };
            proof {
                assert(forall|i: int|
                    0 <= i < p.hit_ids@.len() ==> #[trigger] p.hit_ids@[i] == projectiles@[pi as int].hit_ids@[i]);
                assert(p.hit_ids@ == projectiles@[pi as int].hit_ids@);
                assert(spec_advanced(projectiles@[pi as int], p, dt_ms as nat));
            }
            let mut consumed = false;
            let nt = targets.len();
            for ti in 0..nt
                invariant
                    nt == targets@.len(),
                    p.wf(),
                    p.owner_id == projectiles@[pi as int].owner_id,
                    0 <= config.splash_milli <= 30_000,
                    1 <= config.damage <= 40,
                    forall|i: int|
                        0 <= i < stats@.len() ==> (#[trigger] stats@[i]).1.hp
                            <= old(stats)@[i].1.hp,
                    config.splash_milli == spec_weapon_splash(
                        projectiles@[pi as int].weapon_type,
                    ),
                    config.damage == spec_weapon_damage(projectiles@[pi as int].weapon_type),
                    config.piercing == spec_weapon_piercing(projectiles@[pi as int].weapon_type),
                    p.weapon_type == projectiles@[pi as int].weapon_type,
                    forall|i: int| 0 <= i < stats@.len() ==> (#[trigger] stats@[i]).1.wf(),
                    stats@.len() == old(stats)@.len(),
                    forall|i: int|
                        0 <= i < stats@.len() ==> (#[trigger] stats@[i]).0 == old(stats)@[i].0
                            && stats@[i].1.max_hp == old(stats)@[i].1.max_hp
                            && stats@[i].1.max_shield == old(stats)@[i].1.max_shield,
                    forall|i: int|
                        0 <= i < targets@.len() ==> -WORLD_LIMIT_MILLI <= (#[trigger] targets@[i]).x
                            <= WORLD_LIMIT_MILLI && -WORLD_LIMIT_MILLI <= targets@[i].y
                            <= WORLD_LIMIT_MILLI,
                    forall|k: int|
                        0 <= k < hits@.len() ==> (#[trigger] hits@[k]).target_id
                            != hits@[k].projectile_owner_id,
                    p.distance_traveled_milli < p.max_range_milli,
                    forall|k: int|
                        0 <= k < hits@.len() ==> spec_hits_live_target(
                            #[trigger] hits@[k],
                            targets@,
                        ),
                    projectiles@.len() == 1 ==> forall|k: int|
                        0 <= k < hits@.len() ==> p.hit_ids@.contains(
                            (#[trigger] hits@[k]).target_id,
                        ),
                    projectiles@.len() == 1 ==> forall|k1: int, k2: int|
                        0 <= k1 < k2 < hits@.len() ==> (#[trigger] hits@[k1]).target_id != (
                        #[trigger] hits@[k2]).target_id,
                    targets@.len() == 0 ==> hits@.len() == 0 && stats@ == old(stats)@
                        && spec_advanced(projectiles@[pi as int], p, dt_ms as nat)
                        && p.hit_ids@ == projectiles@[pi as int].hit_ids@ && !consumed,
                    (projectiles@.len() == 1 && targets@.len() == 1 && old(stats)@.len() == 1
                        && old(stats)@[0].0 == targets@[0].id && pi == 0) ==> if ti == 0 {
                        hits@.len() == 0 && stats@ == old(stats)@ && spec_advanced(
                            projectiles@[0],
                            p,
                            dt_ms as nat,
                        ) && p.hit_ids@ == projectiles@[0].hit_ids@ && !consumed
                    } else {
                        spec_duel_mid(
                            projectiles@[0],
                            targets@[0],
                            old(stats)@[0],
                            p,
                            consumed,
                            hits@,
                            stats@,
                            dt_ms as nat,
                            server_time_ms,
                        )
                    },
            {
                let target = &targets[ti];
                let mut skip = false;
                if target.id == p.owner_id {
                    skip = true;
                }
                if target.hp == 0 {
                    skip = true;
                }
                if !skip && contains_id(&p.hit_ids, target.id) {
                    skip = true;
                }
                if !skip && !consumed {
                    proof {
                        let dxx = p.x - target.x;
                        let dyy = p.y - target.y;
                        assert(dxx * dxx + dyy * dyy <= 2 * (2_000_000_000
                            * 2_000_000_000)) by (nonlinear_arith)
                            requires
                                -2_000_000_000 <= dxx <= 2_000_000_000,
                                -2_000_000_000 <= dyy <= 2_000_000_000,
                        ;
                    }
                    let d2 = dist_sq(p.x, p.y, target.x, target.y);
                    let hitbox_sq = (SHIP_HITBOX_RADIUS_MILLI * SHIP_HITBOX_RADIUS_MILLI) as u64;
                    if d2 <= hitbox_sq {
                        // Direct hit.
                        match find_stats(stats, target.id) {
                            Some(si) => {
                                let entry = &mut stats[si];
                                let dmg = apply_damage(&mut entry.1, config.damage, server_time_ms);
                                hits.push(
                                    ProjectileHit {
                                        projectile_owner_id: p.owner_id,
                                        projectile_weapon_type: p.weapon_type,
                                        target_id: target.id,
                                        damage: dmg,
                                    },
                                );
                                proof {
                                    assert(targets@[ti as int].id == hits@.last().target_id
                                        && targets@[ti as int].hp > 0);
                                    assert(spec_hits_live_target(hits@.last(), targets@));
                                }
                            },
                            None => {},
                        }
                        let ghost hid0 = p.hit_ids@;
                        p.hit_ids.push(target.id);
                        proof {
                            assert(p.hit_ids@[p.hit_ids@.len() - 1] == target.id);
                            assert forall|e: u32| hid0.contains(e) implies p.hit_ids@.contains(
                                e,
                            ) by {
                                let w = choose|w: int| 0 <= w < hid0.len() && hid0[w] == e;
                                assert(p.hit_ids@[w] == e);
                            }
                            assert(p.hit_ids@.contains(target.id));
                        }
                        if !config.piercing {
                            consumed = true;
                        }
                    } else if config.splash_milli > 0 {
                        let splash_r = config.splash_milli + SHIP_HITBOX_RADIUS_MILLI;
                        proof {
                            assert(splash_r * splash_r <= 32_000 * 32_000) by (nonlinear_arith)
                                requires
                                    0 <= splash_r <= 32_000,
                            ;
                        }
                        let splash_sq = (splash_r * splash_r) as u64;
                        if d2 <= splash_sq {
                            let d = isqrt(d2);
                            proof {
                                lemma_isqrt_bounds(d2 as int, d as int);
                            }
                            // Linear falloff, with a floor of one point.
                            let falloff_num = if (splash_r as u64) > d {
                                splash_r as u64 - d
                            } else {
                                0
                            };
                            proof {
                                assert(config.damage * falloff_num <= 40 * 32_000)
                                    by (nonlinear_arith)
                                    requires
                                        config.damage <= 40,
                                        falloff_num <= 32_000,
                                ;
                            }
                            let scaled = config.damage * falloff_num / (splash_r as u64);
                            let splash_dmg = if scaled > 0 {
                                scaled
                            } else {
                                1
                            };
                            proof {
                                if projectiles@.len() == 1 && targets@.len() == 1 && old(
                                    stats,
                                )@.len() == 1 && old(stats)@[0].0 == targets@[0].id && pi == 0
                                    && ti == 0 {
                                    let p0 = projectiles@[0];
                                    let t = targets@[0];
                                    let rr = spec_weapon_splash(p0.weapon_type)
                                        + SHIP_HITBOX_RADIUS_MILLI;
                                    assert(rr == splash_r);
                                    assert(spec_isqrt(spec_duel_dist_sq(p0, t, dt_ms as nat))
                                        == d);
                                    if !(splash_r as u64 > d) {
                                        assert(spec_weapon_damage(p0.weapon_type) * (rr
                                            - d as int) <= 0) by (nonlinear_arith)
                                            requires
                                                rr - d as int <= 0,
                                                spec_weapon_damage(p0.weapon_type) >= 1,
                                        ;
                                        assert(spec_weapon_damage(p0.weapon_type) * (rr
                                            - d as int) / rr <= 0) by (nonlinear_arith)
                                            requires
                                                spec_weapon_damage(p0.weapon_type) * (rr
                                                    - d as int) <= 0,
                                                rr >= 1,
                                        ;
                                    }
                                    assert(splash_dmg as int == spec_duel_raw_damage(
                                        p0,
                                        t,
                                        dt_ms as nat,
                                    ));
                                }
                            }
                            match find_stats(stats, target.id) {
                                Some(si) => {
                                    let entry = &mut stats[si];
                                    let dmg = apply_damage(&mut entry.1, splash_dmg, server_time_ms);
                                    hits.push(
                                        ProjectileHit {
                                            projectile_owner_id: p.owner_id,
                                            projectile_weapon_type: p.weapon_type,
                                            target_id: target.id,
                                            damage: dmg,
                                        },
                                    );
                                    proof {
                                        assert(targets@[ti as int].id == hits@.last().target_id
                                            && targets@[ti as int].hp > 0);
                                        assert(spec_hits_live_target(hits@.last(), targets@));
                                    }
                                },
                                None => {},
                            }
                            let ghost hid0 = p.hit_ids@;
                            p.hit_ids.push(target.id);
                            proof {
                                assert(p.hit_ids@[p.hit_ids@.len() - 1] == target.id);
                                assert forall|e: u32| hid0.contains(e) implies p.hit_ids@.contains(
                                    e,
                                ) by {
                                    let w = choose|w: int| 0 <= w < hid0.len() && hid0[w] == e;
                                    assert(p.hit_ids@[w] == e);
                                }
                                assert(p.hit_ids@.contains(target.id));
                            }
                        }
                    }
                }
                proof {
                    if projectiles@.len() == 1 && targets@.len() == 1 && old(stats)@.len() == 1
                        && old(stats)@[0].0 == targets@[0].id && pi == 0 && ti == 0 {
                        let p0 = projectiles@[0];
                        let t = targets@[0];
                        assert(config.splash_milli == spec_weapon_splash(p0.weapon_type));
                        assert(config.damage == spec_weapon_damage(p0.weapon_type));
                        assert(config.piercing == spec_weapon_piercing(p0.weapon_type));
                        assert(p.x == clamp_world(p0.x + spec_displacement(
                            p0.vx as int,
                            dt_ms as nat,
                        )));
                        assert(p.y == clamp_world(p0.y + spec_displacement(
                            p0.vy as int,
                            dt_ms as nat,
                        )));
                        if skip {
                            assert(spec_duel_skips(p0, t));
                            assert(stats@ =~= seq![old(stats)@[0]]);
                        } else {
                            assert(!spec_duel_skips(p0, t));
                            if !spec_duel_touches(p0, t, dt_ms as nat) {
                                assert(stats@ =~= seq![old(stats)@[0]]);
                            }
                        }
                        assert(spec_duel_mid(
                            p0,
                            t,
                            old(stats)@[0],
                            p,
                            consumed,
                            hits@,
                            stats@,
                            dt_ms as nat,
                            server_time_ms,
                        ));
                    }
                }
            }
            let ghost sv0 = surviving@;
            let ghost pg = p;
            if !consumed {
                surviving.push(p);
            }
            proof {
                if targets@.len() == 0 {
                    assert(projectiles@.take(pi as int + 1) =~= projectiles@.take(pi as int).push(
                        projectiles@[pi as int],
                    ));
                    assert(surviving@ == sv0.push(pg));
                    lemma_pass_through_push_alive(
                        projectiles@.take(pi as int),
                        sv0,
                        projectiles@[pi as int],
                        pg,
                        dt_ms as nat,
                    );
                }
                if projectiles@.len() == 1 && targets@.len() == 1 && old(stats)@.len() == 1
                    && old(stats)@[0].0 == targets@[0].id && pi == 0 {
                    assert(sv0.len() == 0);
                    if !consumed {
                        assert(surviving@ == sv0.push(pg));
                        assert(surviving@.len() == 1 && surviving@[0] == pg);
                    }
                    assert(spec_duel_outcome(
                        projectiles@[0],
                        targets@[0],
                        old(stats)@[0],
                        surviving@,
                        hits@,
                        stats@,
                        dt_ms as nat,
                        server_time_ms,
                    ));
                }
            }
        }
    }
    proof {
        assert(projectiles@.take(n as int) =~= projectiles@);
    }

    ProcessProjectilesResult { surviving, hits }
}

/// Distance covered in one tick at the given velocity, rounded toward
/// zero.
fn movement_step(v: i64, dt_ms: u64) -> (r: i64)
    requires
        -2_000_000 <= v <= 2_000_000,
        dt_ms <= 10_000,
    ensures
        r == spec_displacement(v as int, dt_ms as nat),
        -20_000_000 <= r <= 20_000_000,
{
    let mag = if v >= 0 {
        v as u64
    } else {
        (-v) as u64
    };
    proof {
        assert(mag * dt_ms <= 2_000_000 * 10_000) by (nonlinear_arith)
            requires
                mag <= 2_000_000,
                dt_ms <= 10_000,
        ;
    }
    let d = mag * dt_ms / 1000;
    if v >= 0 {
        d as i64
    } else {
        -(d as i64)
    }
}

/// Length of a tick's movement, milli-units.
fn step_length(mx: i64, my: i64) -> (r: i64)
    requires
        -20_000_000 <= mx <= 20_000_000,
        -20_000_000 <= my <= 20_000_000,
    ensures
        0 <= r <= 30_000_000,
        r == spec_isqrt(mx * mx + my * my),
{
    let ax = if mx >= 0 {
        mx as u64
    } else {
        (-mx) as u64
    };
    let ay = if my >= 0 {
        my as u64
    } else {
        (-my) as u64
    };
    proof {
        assert(ax * ax + ay * ay <= 2 * (20_000_000 * 20_000_000)) by (nonlinear_arith)
            requires
                ax <= 20_000_000,
                ay <= 20_000_000,
        ;
    }
    let d = isqrt(ax * ax + ay * ay);
    proof {
        assert(d <= 30_000_000) by (nonlinear_arith)
            requires
                d * d <= 2 * (20_000_000 * 20_000_000),
                d >= 0,
        ;
        assert(ax * ax + ay * ay == mx * mx + my * my) by (nonlinear_arith)
            requires
                ax == mx || ax == -mx,
                ay == my || ay == -my,
        ;
        lemma_isqrt_bounds((ax * ax + ay * ay) as int, d as int);
    }
    d as i64
}

fn clamp_coord(v: i64) -> (r: i64)
    ensures
        -WORLD_LIMIT_MILLI <= r <= WORLD_LIMIT_MILLI,
        r == clamp_world(v as int),
{
    if v < -WORLD_LIMIT_MILLI {
        -WORLD_LIMIT_MILLI
    } else if v > WORLD_LIMIT_MILLI {
        WORLD_LIMIT_MILLI
    } else {
        v
    }
}

fn clone_hit_ids(v: &Vec<u32>) -> (r: Vec<u32>)
    ensures
        r@ == v@,
{
    let mut out: Vec<u32> = Vec::new();
    let n = v.len();
    for i in 0..n
        invariant
            n == v@.len(),
            out@ == v@.subrange(0, i as int),
    {
        out.push(v[i]);
        proof {
            assert(v@.subrange(0, i as int).push(v@[i as int]) =~= v@.subrange(0, i + 1));
        }
    }
    proof {
        assert(v@.subrange(0, n as int) =~= v@);
    }
    out
}

fn contains_id(v: &Vec<u32>, id: u32) -> (r: bool)
    ensures
        r == (exists|i: int| 0 <= i < v@.len() && #[trigger] v@[i] == id),
{
    let n = v.len();
    for i in 0..n
        invariant
            n == v@.len(),
            forall|j: int| 0 <= j < i ==> #[trigger] v@[j] != id,
    {
        if v[i] == id {
            return true;
        }
    }
    false
}

fn find_stats(stats: &Vec<(u32, CombatStats)>, id: u32) -> (r: Option<usize>)
    ensures
        match r {
            Some(i) => i < stats@.len() && stats@[i as int].0 == id && (forall|j: int|
                0 <= j < i ==> (#[trigger] stats@[j]).0 != id),
            None => forall|j: int| 0 <= j < stats@.len() ==> (#[trigger] stats@[j]).0 != id,
        },
{
    let n = stats.len();
    for i in 0..n
        invariant
            n == stats@.len(),
            forall|j: int| 0 <= j < i ==> (#[trigger] stats@[j]).0 != id,
    {
        if stats[i].0 == id {
            return Some(i);
        }
    }
    None
}

} // verus!

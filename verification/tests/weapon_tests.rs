use odyssey_core::combat::{create_default_combat_stats, CombatStats};
use odyssey_core::weapon::{
    create_projectile, get_weapon_config, process_projectiles, CollisionTarget, Projectile,
    WeaponType,
};

#[test]
fn weapon_configs_exist_with_expected_damage() {
    let laser = get_weapon_config(WeaponType::Laser);
    let missile = get_weapon_config(WeaponType::Missile);
    let railgun = get_weapon_config(WeaponType::Railgun);

    assert_eq!(laser.damage, 8);
    assert_eq!(missile.damage, 25);
    assert_eq!(railgun.damage, 40);

    assert_eq!(laser.cooldown_ms, 500);
    assert_eq!(missile.cooldown_ms, 2_000);
    assert_eq!(railgun.cooldown_ms, 4_000);

    assert_eq!(laser.range_milli, 150_000);
    assert_eq!(missile.splash_milli, 30_000);
    assert!(railgun.piercing);
}

#[test]
fn from_u32_maps_wire_indices() {
    assert_eq!(WeaponType::from_u32(0), Some(WeaponType::Laser));
    assert_eq!(WeaponType::from_u32(1), Some(WeaponType::Missile));
    assert_eq!(WeaponType::from_u32(2), Some(WeaponType::Railgun));
    assert_eq!(WeaponType::from_u32(3), None);
}

#[test]
fn create_projectile_direction_aim_right() {
    let proj = create_projectile(1, 1, 0, 0, 1000, 0, WeaponType::Laser, 100_000, 0);
    assert!(proj.vx > 0, "vx should be positive when aiming right");
    assert_eq!(proj.vy, 0, "vy should be zero when aiming right");
}

#[test]
fn create_projectile_velocity_magnitude_matches_config_speed() {
    let proj = create_projectile(1, 1, 0, 0, 1000, 0, WeaponType::Missile, 30_000, 40_000);
    let speed_sq = proj.vx * proj.vx + proj.vy * proj.vy;
    let config = get_weapon_config(WeaponType::Missile);
    let want = (config.speed_milli * config.speed_milli) as i64;
    // Integer normalisation: the speed never exceeds the configured
    // speed and stays within a tenth of a percent of it.
    assert!(speed_sq <= want);
    assert!(speed_sq >= want - want / 500);
}

#[test]
fn projectile_expires_at_max_range() {
    let proj = create_projectile(1, 1, 0, 0, 1000, 0, WeaponType::Laser, 100_000, 0);

    // A long tick pushes it past its 150-unit range (800 u/s × 0.2 s = 160).
    let mut projectiles: Vec<Projectile> = vec![proj];
    let targets: Vec<CollisionTarget> = Vec::new();
    let mut stats: Vec<(u32, CombatStats)> = Vec::new();

    let mut survivors = Vec::new();
    for _ in 0..10 {
        let result =
            process_projectiles(std::mem::take(&mut projectiles), &targets, &mut stats, 200, 0);
        survivors = result.surviving;
        projectiles = std::mem::take(&mut survivors);
    }
    assert!(projectiles.is_empty(), "projectile should expire past max range");
}

#[test]
fn direct_hit_on_target_within_hitbox() {
    // The laser travels 10 units in 12.5 ms; the target sits 10 units out.
    let proj = create_projectile(1, 1, 0, 0, 1000, 0, WeaponType::Laser, 100_000, 0);

    let mut projectiles: Vec<Projectile> = vec![proj];
    let targets = vec![CollisionTarget { id: 2, x: 10_000, y: 0, hp: 100 }];
    let mut stats: Vec<(u32, CombatStats)> = vec![(2, create_default_combat_stats())];

    // 800 u/s: 12 ms ≈ 9.6 units, inside the 2-unit hitbox around x=10.
    let result = process_projectiles(projectiles.drain(..).collect(), &targets, &mut stats, 12, 0);

    assert_eq!(result.hits.len(), 1, "should register exactly one hit");
    assert_eq!(result.hits[0].target_id, 2);
    assert_eq!(result.hits[0].projectile_owner_id, 1);
    // The laser deals 8: shield 50 → 42.
    assert_eq!(stats[0].1.shield, 42);
}

#[test]
fn miss_when_target_is_far_away() {
    let proj = create_projectile(1, 1, 0, 0, 1000, 0, WeaponType::Laser, 100_000, 0);

    let mut projectiles: Vec<Projectile> = vec![proj];
    let targets = vec![CollisionTarget { id: 2, x: 10_000, y: 50_000, hp: 100 }];
    let mut stats: Vec<(u32, CombatStats)> = vec![(2, create_default_combat_stats())];

    let result = process_projectiles(projectiles.drain(..).collect(), &targets, &mut stats, 12, 0);

    assert!(result.hits.is_empty(), "should not hit a far-away target");
    assert_eq!(result.surviving.len(), 1, "projectile should survive");
}

#[test]
fn no_self_hit() {
    let proj = create_projectile(1, 1, 0, 0, 1000, 0, WeaponType::Laser, 100_000, 0);

    let mut projectiles: Vec<Projectile> = vec![proj];
    let targets = vec![CollisionTarget { id: 1, x: 0, y: 0, hp: 100 }];
    let mut stats: Vec<(u32, CombatStats)> = vec![(1, create_default_combat_stats())];

    let result = process_projectiles(projectiles.drain(..).collect(), &targets, &mut stats, 1, 0);

    assert!(result.hits.is_empty(), "should not hit the owner");
}

#[test]
fn railgun_piercing_hits_multiple_targets() {
    let proj = create_projectile(1, 1, 0, 0, 1000, 0, WeaponType::Railgun, 100_000, 0);

    // 1200 u/s × 11 ms ≈ 13.2 units: past both targets at 12 and 13.
    let mut projectiles: Vec<Projectile> = vec![proj];
    let targets = vec![
        CollisionTarget { id: 2, x: 12_500, y: 0, hp: 100 },
        CollisionTarget { id: 3, x: 13_500, y: 0, hp: 100 },
    ];
    let mut stats: Vec<(u32, CombatStats)> =
        vec![(2, create_default_combat_stats()), (3, create_default_combat_stats())];

    let result = process_projectiles(projectiles.drain(..).collect(), &targets, &mut stats, 11, 0);

    assert_eq!(result.hits.len(), 2, "railgun should pierce and hit both targets");
    let mut hit_ids: Vec<u32> = result.hits.iter().map(|h| h.target_id).collect();
    hit_ids.sort();
    assert_eq!(hit_ids, vec![2, 3]);
    assert_eq!(result.surviving.len(), 1, "piercing projectile should survive");
}

#[test]
fn laser_duel_damage_sequence() {
    // A laser hit takes 8 from the shield first (50 → 42); sustained
    // fire drains the shield and then hit points exactly; six quiet
    // seconds later the shield regrows 2 per tick.
    let mut stats = create_default_combat_stats();
    odyssey_core::combat::apply_damage(&mut stats, 8, 1_000);
    assert_eq!(stats.shield, 42);
    assert_eq!(stats.hp, 100);

    // Nine more shots: 80 in total; the shield absorbed 50, hit points
    // took the remaining 30.
    for _ in 0..9 {
        odyssey_core::combat::apply_damage(&mut stats, 8, 1_000);
    }
    assert_eq!(stats.shield, 0);
    assert_eq!(stats.hp, 70);

    odyssey_core::combat::tick_shield_regen(&mut stats, 7_000);
    assert_eq!(stats.shield, 2);
    odyssey_core::combat::tick_shield_regen(&mut stats, 7_050);
    assert_eq!(stats.shield, 4);
}

#[test]
fn projectile_expires_exactly_at_max_range() {
    // A missile flying straight covers exactly its 300-unit range in
    // 750 ms and is dropped at the boundary, not past it.
    let proj = create_projectile(1, 1, 0, 0, 1000, 0, WeaponType::Missile, 500_000, 0);
    assert_eq!(proj.vx, 400_000);
    assert_eq!(proj.vy, 0);
    let targets: Vec<CollisionTarget> = Vec::new();
    let mut stats: Vec<(u32, CombatStats)> = Vec::new();
    let result = process_projectiles(vec![proj], &targets, &mut stats, 750, 0);
    assert!(result.surviving.is_empty(), "reaching max range exactly expires the projectile");
}

use odyssey_core::combat::{
    apply_damage, create_default_combat_stats, is_dead, reset_combat_stats, tick_shield_regen,
};
use odyssey_core::combat_manager::{handle_fire_weapon, handle_respawn, process_combat_tick};
use odyssey_core::weapon::create_projectile;
use odyssey_core::weapon::{Projectile, WeaponType};

fn make_stats() -> odyssey_core::combat::CombatStats {
    create_default_combat_stats()
}

#[test]
fn default_stats_values() {
    let stats = make_stats();
    assert_eq!(stats.hp, 100);
    assert_eq!(stats.max_hp, 100);
    assert_eq!(stats.shield, 50);
    assert_eq!(stats.max_shield, 50);
    assert_eq!(stats.shield_regen_rate, 2);
    assert_eq!(stats.shield_regen_delay_ms, 5_000);
    assert_eq!(stats.last_damage_time_ms, 0);
}

#[test]
fn apply_damage_shield_absorbs_first() {
    let mut stats = make_stats();
    let result = apply_damage(&mut stats, 30, 1_000);

    assert_eq!(result.shield_damage, 30);
    assert_eq!(result.hp_damage, 0);
    assert_eq!(stats.shield, 20);
    assert_eq!(stats.hp, 100);
    assert!(!result.killed);
}

#[test]
fn apply_damage_bleeds_through_shield_to_hp() {
    let mut stats = make_stats();
    let result = apply_damage(&mut stats, 70, 1_000);

    assert_eq!(result.shield_damage, 50);
    assert_eq!(result.hp_damage, 20);
    assert_eq!(stats.shield, 0);
    assert_eq!(stats.hp, 80);
    assert!(!result.killed);
}

#[test]
fn apply_damage_kills_at_zero_hp() {
    let mut stats = make_stats();
    let result = apply_damage(&mut stats, 150, 1_000);

    assert_eq!(result.shield_damage, 50);
    assert_eq!(result.hp_damage, 100);
    assert_eq!(stats.hp, 0);
    assert_eq!(stats.shield, 0);
    assert!(result.killed);
}

#[test]
fn apply_damage_sets_last_damage_time() {
    let mut stats = make_stats();
    assert_eq!(stats.last_damage_time_ms, 0);

    apply_damage(&mut stats, 10, 42_500);
    assert_eq!(stats.last_damage_time_ms, 42_500);
}

#[test]
fn shield_regen_works_after_delay() {
    let mut stats = make_stats();
    apply_damage(&mut stats, 20, 1_000);
    assert_eq!(stats.shield, 30);

    // 6.1 s is more than 5 s after the damage at 1 s.
    tick_shield_regen(&mut stats, 6_100);
    assert_eq!(stats.shield, 32);
}

#[test]
fn shield_regen_blocked_during_delay() {
    let mut stats = make_stats();
    apply_damage(&mut stats, 20, 1_000);
    assert_eq!(stats.shield, 30);

    // 5.5 − 1.0 = 4.5 s, still inside the delay.
    tick_shield_regen(&mut stats, 5_500);
    assert_eq!(stats.shield, 30);
}

#[test]
fn shield_regen_caps_at_max() {
    let mut stats = make_stats();
    apply_damage(&mut stats, 1, 1_000);
    assert_eq!(stats.shield, 49);

    tick_shield_regen(&mut stats, 7_000);
    assert_eq!(stats.shield, 50);
}

#[test]
fn is_dead_returns_true_when_hp_zero() {
    let mut stats = make_stats();
    assert!(!is_dead(&stats));

    apply_damage(&mut stats, 150, 1_000);
    assert!(is_dead(&stats));
}

#[test]
fn reset_combat_stats_restores_full() {
    let mut stats = make_stats();
    apply_damage(&mut stats, 120, 1_000);
    assert_eq!(stats.shield, 0);
    assert_eq!(stats.hp, 30);
    assert_eq!(stats.last_damage_time_ms, 1_000);

    reset_combat_stats(&mut stats);
    assert_eq!(stats.hp, 100);
    assert_eq!(stats.shield, 50);
    assert_eq!(stats.last_damage_time_ms, 0);
}

fn setup_fire() -> (Vec<u64>, Vec<Projectile>, Vec<WeaponType>) {
    let cooldowns: Vec<u64> = vec![0, 0];
    let projectiles: Vec<Projectile> = Vec::new();
    let weapons = vec![WeaponType::Laser, WeaponType::Missile];
    (cooldowns, projectiles, weapons)
}

#[test]
fn fire_weapon_succeeds_in_pvp_zone() {
    let (mut cooldowns, mut projectiles, weapons) = setup_fire();

    let result = handle_fire_weapon(
        1,
        0,
        0,
        1000,
        0,
        100,
        0,
        10_000,
        10_000,
        "space",
        &weapons,
        &mut cooldowns,
        &mut projectiles,
        1,
        1_000,
    );

    assert!(result.is_none(), "Expected success, got: {:?}", result);
    assert_eq!(projectiles.len(), 1);
    assert_eq!(projectiles[0].owner_id, 1);
    assert_eq!(cooldowns[0], 1_000);
}

#[test]
fn fire_weapon_fails_on_cooldown() {
    let (mut cooldowns, mut projectiles, weapons) = setup_fire();

    let r1 = handle_fire_weapon(
        1, 0, 0, 1000, 0, 100, 0, 10_000, 10_000, "space", &weapons, &mut cooldowns,
        &mut projectiles, 1, 1_000,
    );
    assert!(r1.is_none());

    // 0.1 s later: the laser cooldown is 0.5 s.
    let r2 = handle_fire_weapon(
        1, 0, 0, 1000, 0, 100, 0, 10_000, 10_000, "space", &weapons, &mut cooldowns,
        &mut projectiles, 2, 1_100,
    );
    assert_eq!(r2, Some("Weapon on cooldown".to_string()));
    assert_eq!(projectiles.len(), 1);
}

#[test]
fn fire_weapon_succeeds_at_exact_cooldown_boundary() {
    let (mut cooldowns, mut projectiles, weapons) = setup_fire();

    let r1 = handle_fire_weapon(
        1, 0, 0, 1000, 0, 100, 0, 10_000, 10_000, "space", &weapons, &mut cooldowns,
        &mut projectiles, 1, 1_000,
    );
    assert!(r1.is_none());

    // One millisecond early: refused.
    let early = handle_fire_weapon(
        1, 0, 0, 1000, 0, 100, 0, 10_000, 10_000, "space", &weapons, &mut cooldowns,
        &mut projectiles, 2, 1_499,
    );
    assert!(early.is_some());

    // Exactly at last_fire + cooldown: the shot fires.
    let exact = handle_fire_weapon(
        1, 0, 0, 1000, 0, 100, 0, 10_000, 10_000, "space", &weapons, &mut cooldowns,
        &mut projectiles, 3, 1_500,
    );
    assert!(exact.is_none());
}

#[test]
fn fire_weapon_fails_with_invalid_slot() {
    let (mut cooldowns, mut projectiles, weapons) = setup_fire();

    let result = handle_fire_weapon(
        1, 0, 0, 1000, 0, 100, 5, 10_000, 10_000, "space", &weapons, &mut cooldowns,
        &mut projectiles, 1, 1_000,
    );
    assert_eq!(result, Some("Invalid weapon slot".to_string()));
    assert!(projectiles.is_empty());
}

#[test]
fn fire_weapon_fails_when_dead() {
    let (mut cooldowns, mut projectiles, weapons) = setup_fire();

    let result = handle_fire_weapon(
        1, 0, 0, 1000, 0, 0, 0, 10_000, 10_000, "space", &weapons, &mut cooldowns,
        &mut projectiles, 1, 1_000,
    );
    assert_eq!(result, Some("Cannot fire while dead".to_string()));
    assert!(projectiles.is_empty());
}

#[test]
fn fire_weapon_fails_in_non_pvp_zone() {
    for zone in &["station", "dock", "safe"] {
        let (mut cooldowns, mut projectiles, weapons) = setup_fire();
        let result = handle_fire_weapon(
            1, 0, 0, 1000, 0, 100, 0, 10_000, 10_000, zone, &weapons, &mut cooldowns,
            &mut projectiles, 1, 1_000,
        );
        assert_eq!(result, Some("Combat not allowed in this zone".to_string()));
        assert!(projectiles.is_empty());
    }
}

#[test]
fn respawn_succeeds_after_delay() {
    let mut stats = create_default_combat_stats();
    apply_damage(&mut stats, 150, 10_000);
    assert!(is_dead(&stats));

    let death_time = 10_000u64;
    let server_time = death_time + 5_000 + 100;

    let result = handle_respawn(&mut stats, Some(death_time), server_time, 50_000, 60_000);
    assert!(result.is_some());

    let payload = result.unwrap();
    assert_eq!(payload.x, 50_000);
    assert_eq!(payload.y, 60_000);
    assert_eq!(payload.hp, 100);
    assert_eq!(payload.shield, 50);
    assert_eq!(stats.hp, 100);
    assert_eq!(stats.shield, 50);
}

#[test]
fn respawn_fails_before_delay() {
    let mut stats = create_default_combat_stats();
    apply_damage(&mut stats, 150, 10_000);

    let death_time = 10_000u64;
    let server_time = death_time + 5_000 - 1_000;

    let result = handle_respawn(&mut stats, Some(death_time), server_time, 50_000, 60_000);
    assert!(result.is_none());
    assert_eq!(stats.hp, 0);
}

#[test]
fn respawn_succeeds_at_exact_boundary() {
    // A player on one hit point takes heavy damage at t = 0; the respawn
    // request at two seconds yields nothing, the one at five succeeds.
    let mut stats = create_default_combat_stats();
    stats.shield = 0;
    stats.hp = 1;
    apply_damage(&mut stats, 100, 0);
    assert!(is_dead(&stats));

    let at_two = handle_respawn(&mut stats, Some(0), 2_000, 10_000, 20_000);
    assert!(at_two.is_none());

    let at_five = handle_respawn(&mut stats, Some(0), 5_000, 10_000, 20_000);
    assert!(at_five.is_some());
    let payload = at_five.unwrap();
    assert_eq!(payload.hp, 100);
    assert_eq!(payload.shield, 50);
}

#[test]
fn safe_zone_tick_keeps_projectiles_and_regenerates() {
    // In a station zone the projectiles pass through untouched and no
    // combat events arise.
    let p = create_projectile(1, 9, 0, 0, 0, 1000, WeaponType::Laser, 50_000, 0);
    let expected_vx = p.vx;
    let mut stats = vec![(5u32, create_default_combat_stats())];
    let players = Vec::new();
    let (out, events) =
        process_combat_tick("station", &players, &mut stats, vec![p], 100, 1_000);
    assert_eq!(out.len(), 1);
    assert_eq!(out[0].id, 1);
    assert_eq!(out[0].vx, expected_vx);
    assert_eq!(out[0].distance_traveled_milli, 0);
    assert!(events.is_empty());
}

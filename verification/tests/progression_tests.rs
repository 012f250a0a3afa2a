use odyssey_core::equipment::StatModifiers;
use odyssey_core::progression::{
    base_ship_stats, calculate_ship_stats, xp_for_next_level, PlayerProgression, MAX_LEVEL,
};

#[test]
fn new_progression_starts_at_level_1_xp_0() {
    let p = PlayerProgression::new();
    assert_eq!(p.level, 1);
    assert_eq!(p.xp, 0);
    assert_eq!(p.skill_points, 0);
}

#[test]
fn xp_for_next_level_formula() {
    // Formula: 100 * level + 50 * level * level
    assert_eq!(xp_for_next_level(1), 150);
    assert_eq!(xp_for_next_level(5), 1750);
    assert_eq!(xp_for_next_level(10), 6000);
}

#[test]
fn add_xp_no_level_up() {
    let mut p = PlayerProgression::new();
    let events = p.add_xp(100);
    assert!(events.is_empty());
    assert_eq!(p.level, 1);
    assert_eq!(p.xp, 100);
}

#[test]
fn add_xp_one_level_up() {
    let mut p = PlayerProgression::new();
    let events = p.add_xp(150);
    assert_eq!(events.len(), 1);
    assert_eq!(p.level, 2);
    assert_eq!(events[0].level, 2);
    assert_eq!(p.xp, 0);
}

#[test]
fn add_xp_multiple_level_ups() {
    let mut p = PlayerProgression::new();
    // Level 1->2 costs 150, level 2->3 costs 400, total = 550.
    let events = p.add_xp(600);
    assert_eq!(events.len(), 2);
    assert_eq!(p.level, 3);
    assert_eq!(p.xp, 50);
    assert_eq!(events[0].level, 2);
    assert_eq!(events[1].level, 3);
}

#[test]
fn level_capped_at_max() {
    let mut p = PlayerProgression::new();
    p.add_xp(u64::MAX / 2);
    assert_eq!(p.level, MAX_LEVEL);
    assert_eq!(p.xp, 0);
    let events = p.add_xp(1000);
    assert!(events.is_empty());
    assert_eq!(p.level, MAX_LEVEL);
}

#[test]
fn skill_points_awarded_on_level_up() {
    let mut p = PlayerProgression::new();
    p.add_xp(600);
    assert_eq!(p.level, 3);
    assert_eq!(p.skill_points, 2);
}

#[test]
fn spend_skill_point_succeeds() {
    let mut p = PlayerProgression::new();
    p.add_xp(150);
    assert_eq!(p.skill_points, 1);
    assert!(p.spend_skill_point());
    assert_eq!(p.skill_points, 0);
}

#[test]
fn spend_skill_point_fails_at_zero() {
    let mut p = PlayerProgression::new();
    assert_eq!(p.skill_points, 0);
    assert!(!p.spend_skill_point());
}

#[test]
fn calculate_ship_stats_level_scaling() {
    let no_mods = StatModifiers::zero();

    let stats_1 = calculate_ship_stats(1, &no_mods);
    let stats_10 = calculate_ship_stats(10, &no_mods);
    let stats_50 = calculate_ship_stats(50, &no_mods);

    assert!(stats_10.max_hp > stats_1.max_hp);
    assert!(stats_10.max_shield > stats_1.max_shield);
    assert!(stats_10.move_speed > stats_1.move_speed);
    assert!(stats_10.mining_speed_centi > stats_1.mining_speed_centi);
    assert!(stats_10.cargo_capacity > stats_1.cargo_capacity);
    assert!(stats_10.damage_centi > stats_1.damage_centi);

    assert!(stats_50.max_hp > stats_10.max_hp);
    assert!(stats_50.max_shield > stats_10.max_shield);
    assert!(stats_50.move_speed > stats_10.move_speed);
    assert!(stats_50.mining_speed_centi > stats_10.mining_speed_centi);
    assert!(stats_50.cargo_capacity > stats_10.cargo_capacity);
    assert!(stats_50.damage_centi > stats_10.damage_centi);

    // Level 1 with no equipment equals the base stats.
    let base = base_ship_stats();
    assert_eq!(stats_1.max_hp, base.max_hp);
    assert_eq!(stats_1.max_shield, base.max_shield);
    assert_eq!(stats_1.damage_centi, base.damage_centi);
}

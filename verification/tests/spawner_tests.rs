use odyssey_core::spawner::SpawnManager;
use odyssey_core::zone::{Zone, ZoneBounds, ZoneConfig};

fn make_zone(id: &str) -> Zone {
    Zone::new(
        ZoneConfig {
            id: id.to_string(),
            name: id.to_string(),
            zone_type: "space".to_string(),
            bounds: ZoneBounds {
                x_min: -1_000_000,
                x_max: 1_000_000,
                y_min: -1_000_000,
                y_max: 1_000_000,
            },
            connections: vec![],
            node_count: 0,
        },
        1,
    )
}

#[test]
fn new_spawn_manager_has_zero_npcs() {
    let mgr = SpawnManager::new();
    assert_eq!(mgr.total_npc_count(), 0);
}

#[test]
fn initialize_zone_spawns_npcs() {
    let mut mgr = SpawnManager::new();
    let zone = make_zone("uurf-hub"); // two station guards

    let events = mgr.initialize_zone(&zone);

    assert_eq!(events.len(), 2);
    assert_eq!(mgr.total_npc_count(), 2);

    for ev in &events {
        assert_eq!(ev.zone_id, "uurf-hub");
    }
}

#[test]
fn initialize_zone_is_idempotent() {
    let mut mgr = SpawnManager::new();
    let zone = make_zone("uurf-hub");

    let first = mgr.initialize_zone(&zone);
    assert!(!first.is_empty());

    let second = mgr.initialize_zone(&zone);
    assert!(second.is_empty(), "second initialisation should spawn nothing");
    assert_eq!(mgr.total_npc_count(), 2);
}

#[test]
fn damage_npc_reduces_hp_without_killing() {
    let mut mgr = SpawnManager::new();
    let zone = make_zone("uurf-hub"); // station guards have 150 hit points
    let events = mgr.initialize_zone(&zone);
    let npc_id = events[0].payload.npc_id;

    let result = mgr.damage_npc(npc_id, 10, Some(1));
    assert!(result.is_none(), "the guard should survive 10 of 150");

    let i = mgr.npc_index(npc_id).expect("NPC should still exist");
    assert_eq!(mgr.npcs[i].combat.hp, 140);
    assert!(mgr.npcs[i].alive);
}

#[test]
fn handle_npc_death_kills_and_returns_event() {
    let mut mgr = SpawnManager::new();
    let zone = make_zone("uurf-hub");
    let events = mgr.initialize_zone(&zone);
    let npc_id = events[0].payload.npc_id;

    let death = mgr
        .handle_npc_death(npc_id, Some(42))
        .expect("an alive NPC should yield a death event");

    assert_eq!(death.npc_id, npc_id);
    assert_eq!(death.zone_id, "uurf-hub");
    assert_eq!(death.killer_id, Some(42));

    assert!(mgr.npc_index(npc_id).is_none());
}

#[test]
fn get_zone_npcs_excludes_dead_npcs() {
    let mut mgr = SpawnManager::new();
    let zone = make_zone("uurf-hub");
    let events = mgr.initialize_zone(&zone);
    assert_eq!(events.len(), 2);

    let first_id = events[0].payload.npc_id;
    mgr.handle_npc_death(first_id, None);

    let alive = mgr.get_zone_npc_states("uurf-hub");
    assert_eq!(alive.len(), 1, "only one NPC should remain alive");
    assert_ne!(alive[0].id, first_id);
}

#[test]
fn total_npc_count_reflects_only_alive_npcs() {
    let mut mgr = SpawnManager::new();
    let zone_hub = make_zone("uurf-hub"); // 2 guards
    let zone_orbit = make_zone("uurf-orbit"); // 3 pirates + 2 traders

    mgr.initialize_zone(&zone_hub);
    mgr.initialize_zone(&zone_orbit);
    assert_eq!(mgr.total_npc_count(), 7);

    let hub_ids: Vec<u32> = mgr.get_zone_npc_states("uurf-hub").iter().map(|n| n.id).collect();
    for id in hub_ids {
        mgr.handle_npc_death(id, None);
    }

    assert_eq!(mgr.total_npc_count(), 5, "only the orbit NPCs should remain");
}

#[test]
fn process_spawn_tick_respawns_dead_npcs() {
    let mut mgr = SpawnManager::new();
    let zone = make_zone("uurf-hub"); // guard respawn: 20 s

    let events = mgr.initialize_zone(&zone);
    let npc_id = events[0].payload.npc_id;

    mgr.handle_npc_death(npc_id, None);
    assert_eq!(mgr.total_npc_count(), 1);

    let zones = vec![make_zone("uurf-hub")];

    // Ten seconds: too early.
    let early_events = mgr.process_spawn_tick(&zones, 10_000);
    assert!(early_events.is_empty(), "no respawn before the timer runs out");
    assert_eq!(mgr.total_npc_count(), 1);

    // Another fifteen seconds: 25 s > 20 s, the guard returns.
    let respawn_events = mgr.process_spawn_tick(&zones, 15_000);
    assert_eq!(respawn_events.len(), 1, "one NPC should respawn");
    assert_eq!(mgr.total_npc_count(), 2);
}

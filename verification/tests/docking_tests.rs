use odyssey_core::docking::{DockingSystem, StationService};
use odyssey_core::player::Player;

fn make_player(id: u32, x: i64, y: i64, zone_id: &str) -> Player {
    let mut player = Player::new(id, x, y, "pilot".to_string());
    player.zone_id = zone_id.to_string();
    player
}

#[test]
fn get_station_by_id_found() {
    let system = DockingSystem::new();
    let station = system.get_station_by_id("sol_1_station");
    assert!(station.is_some());
    let station = station.unwrap();
    assert_eq!(station.name, "Sol Station Alpha");
    assert_eq!(station.zone_id, "sol_1");
}

#[test]
fn get_station_by_id_not_found() {
    let system = DockingSystem::new();
    let station = system.get_station_by_id("nonexistent_station");
    assert!(station.is_none());
}

#[test]
fn get_stations_in_zone_returns_matching() {
    let system = DockingSystem::new();
    let stations = system.get_stations_in_zone("sol_1");
    assert_eq!(stations.len(), 1);
    assert_eq!(stations[0].id, "sol_1_station");

    let empty = system.get_stations_in_zone("nonexistent_zone");
    assert!(empty.is_empty());
}

#[test]
fn dock_at_station_succeeds_when_near() {
    let system = DockingSystem::new();
    // sol_1_station is at (100, 100) units in zone sol_1.
    let mut player = make_player(1, 100_000, 100_000, "sol_1");

    let result = system.dock_at_station(&mut player, "sol_1_station");
    assert!(result.is_none(), "expected success but got: {:?}", result);
    assert!(player.is_docked);
    assert_eq!(player.docked_station_zone_id.as_deref(), Some("sol_1"));
}

#[test]
fn dock_at_station_fails_when_too_far() {
    let system = DockingSystem::new();
    let mut player = make_player(1, 5_000_000, 5_000_000, "sol_1");

    let result = system.dock_at_station(&mut player, "sol_1_station");
    assert_eq!(result.as_deref(), Some("Too far from station"));
    assert!(!player.is_docked);
}

#[test]
fn dock_at_station_fails_when_already_docked() {
    let system = DockingSystem::new();
    let mut player = make_player(1, 100_000, 100_000, "sol_1");

    let first = system.dock_at_station(&mut player, "sol_1_station");
    assert!(first.is_none());

    let second = system.dock_at_station(&mut player, "sol_1_station");
    assert_eq!(second.as_deref(), Some("Already docked"));
}

#[test]
fn undock_from_station_succeeds_when_docked() {
    let system = DockingSystem::new();
    let mut player = make_player(1, 100_000, 100_000, "sol_1");

    system.dock_at_station(&mut player, "sol_1_station");
    assert!(player.is_docked);

    let result = system.undock_from_station(&mut player);
    assert!(result.is_none(), "expected success but got: {:?}", result);
    assert!(!player.is_docked);
    assert!(player.docked_station_zone_id.is_none());
}

#[test]
fn undock_from_station_fails_when_not_docked() {
    let system = DockingSystem::new();
    let mut player = make_player(1, 100_000, 100_000, "sol_1");

    let result = system.undock_from_station(&mut player);
    assert_eq!(result.as_deref(), Some("Not currently docked"));
}

#[test]
fn can_use_service_requires_docking() {
    let system = DockingSystem::new();
    let mut player = make_player(1, 100_000, 100_000, "sol_1");
    assert!(!system.can_use_service(&player, "sol_1_station", StationService::Market));

    system.dock_at_station(&mut player, "sol_1_station");
    assert!(system.can_use_service(&player, "sol_1_station", StationService::Market));
    // sol_1_station has no refuel service.
    assert!(!system.can_use_service(&player, "sol_1_station", StationService::Refuel));
}

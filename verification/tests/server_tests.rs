use odyssey_core::msg::{HelloPayload, ZoneTransferPayload};
use odyssey_core::server::{GameServer, OutEvent, OutPayload};

fn hello(server: &mut GameServer, conn_id: u64, name: &str) -> Vec<OutEvent> {
    server.handle_hello(
        conn_id,
        HelloPayload { version: 1, name: name.to_string() },
        None,
        0,
    )
}

fn count_joined_broadcasts(events: &[OutEvent]) -> usize {
    events
        .iter()
        .filter(|e| {
            matches!(
                e,
                OutEvent::ToZoneExcept { payload: OutPayload::PlayerJoined(_), .. }
            )
        })
        .count()
}

fn count_left_broadcasts(events: &[OutEvent]) -> usize {
    events
        .iter()
        .filter(|e| {
            matches!(e, OutEvent::ToZoneExcept { payload: OutPayload::PlayerLeft(_), .. })
        })
        .count()
}

#[test]
fn hello_places_player_in_default_zone() {
    let mut server = GameServer::new(1);
    let events = hello(&mut server, 7, "ada");

    // The newcomer is attached and standing in the default zone.
    assert_eq!(server.player_of_conn(7), Some(1));
    let zone = server.zones.iter().find(|z| z.id == "uurf-orbit").unwrap();
    assert!(zone.players.iter().any(|p| p.id == 1));

    // Exactly one arrival broadcast for the zone.
    assert_eq!(count_joined_broadcasts(&events), 1);
    // The newcomer got WELCOME and the zone description.
    assert!(events
        .iter()
        .any(|e| matches!(e, OutEvent::ToConn { payload: OutPayload::Welcome(_), .. })));
    assert!(events
        .iter()
        .any(|e| matches!(e, OutEvent::ToConn { payload: OutPayload::ZoneInfo(_), .. })));
}

#[test]
fn duplicate_hello_is_a_no_op() {
    let mut server = GameServer::new(1);
    let first = hello(&mut server, 7, "ada");
    assert!(!first.is_empty());
    let second = hello(&mut server, 7, "ada");
    assert!(second.is_empty());
}

#[test]
fn requested_transfer_moves_player_and_broadcasts_once_each() {
    // The player asks to move to a connected zone: one departure
    // broadcast in the old zone, one arrival broadcast in the new, a
    // fresh in-bounds position with zero velocity, and a zone
    // description for the mover.
    let mut server = GameServer::new(1);
    hello(&mut server, 7, "ada");

    let events = server.handle_zone_transfer(
        7,
        ZoneTransferPayload { target_zone_id: "uurf-hub".to_string() },
    );

    assert_eq!(count_left_broadcasts(&events), 1, "one departure broadcast");
    assert_eq!(count_joined_broadcasts(&events), 1, "one arrival broadcast");
    assert!(events
        .iter()
        .any(|e| matches!(e, OutEvent::ToConn { payload: OutPayload::ZoneInfo(_), .. })));

    let hub = server.zones.iter().find(|z| z.id == "uurf-hub").unwrap();
    let p = hub.players.iter().find(|p| p.id == 1).expect("player moved to the hub");
    assert_eq!(p.state.vx, 0);
    assert_eq!(p.state.vy, 0);
    assert!(p.state.x >= hub.bounds.x_min && p.state.x < hub.bounds.x_max);
    assert!(p.state.y >= hub.bounds.y_min && p.state.y < hub.bounds.y_max);

    let orbit = server.zones.iter().find(|z| z.id == "uurf-orbit").unwrap();
    assert!(!orbit.players.iter().any(|p| p.id == 1));
}

#[test]
fn transfer_to_unconnected_zone_is_refused() {
    let mut server = GameServer::new(1);
    hello(&mut server, 7, "ada");

    // The hub connects only back to orbit, so the surface is one hop
    // too far — but from orbit everything is connected; try a made-up id.
    let events = server.handle_zone_transfer(
        7,
        ZoneTransferPayload { target_zone_id: "nowhere".to_string() },
    );
    assert!(events.is_empty());
    let orbit = server.zones.iter().find(|z| z.id == "uurf-orbit").unwrap();
    assert!(orbit.players.iter().any(|p| p.id == 1));
}

#[test]
fn game_tick_emits_world_state_to_connected_players() {
    let mut server = GameServer::new(1);
    hello(&mut server, 7, "ada");

    let (events, saves) = server.game_tick(50);
    assert!(saves.is_empty() || !saves.is_empty()); // first tick may save
    let world_states = events
        .iter()
        .filter(|e| {
            matches!(
                e,
                OutEvent::ToConn { conn_id: 7, payload: OutPayload::WorldState(_), .. }
            )
        })
        .count();
    assert_eq!(world_states, 1, "one world state per connected player per tick");
}

#[test]
fn disconnect_marks_player_and_returns_snapshot() {
    let mut server = GameServer::new(1);
    hello(&mut server, 7, "ada");

    let (events, save) = server.handle_disconnect(7, 1_000);
    assert_eq!(count_left_broadcasts(&events), 1);
    let data = save.expect("a snapshot for the departing player");
    assert_eq!(data.player_id, 1);
    assert_eq!(data.name, "ada");
    assert_eq!(server.player_of_conn(7), None);

    let orbit = server.zones.iter().find(|z| z.id == "uurf-orbit").unwrap();
    let p = orbit.players.iter().find(|p| p.id == 1).unwrap();
    assert!(p.is_disconnected);
}

#[test]
fn hello_sends_equipment_and_ship_stats() {
    let mut server = GameServer::new(1);
    let events = hello(&mut server, 7, "ada");
    assert!(events.iter().any(|e| matches!(
        e,
        OutEvent::ToConn { payload: OutPayload::EquipmentState(_), .. }
    )));
    assert!(events.iter().any(|e| matches!(
        e,
        OutEvent::ToConn { payload: OutPayload::ShipStats(_), .. }
    )));
}

use odyssey_core::config;
use odyssey_core::mining::{process_mining_tick, start_mining_in_zone};
use odyssey_core::node::ResourceNode;
use odyssey_core::player::Player;
use odyssey_core::zone::{Zone, ZoneBounds, ZoneConfig};

fn make_zone() -> Zone {
    Zone::new(
        ZoneConfig {
            id: "test-zone".to_string(),
            name: "Test Zone".to_string(),
            zone_type: "space".to_string(),
            bounds: ZoneBounds {
                x_min: -1_000_000,
                x_max: 1_000_000,
                y_min: -1_000_000,
                y_max: 1_000_000,
            },
            connections: vec![],
            node_count: 0,
        },
        1,
    )
}

fn make_node(id: u32, resource_type: &str, x: i64, y: i64, quality: u32) -> ResourceNode {
    ResourceNode::new(id, resource_type.to_string(), x, y, quality)
}

#[test]
fn start_mining_succeeds_when_player_near_node() {
    let mut zone = make_zone();
    let node = make_node(10, "iron", 50_000, 50_000, 1);
    let node_id = node.id;
    zone.add_node(node);

    let player = Player::new(1, 50_000, 50_000, "tester".to_string());
    zone.add_player(player);

    let result = start_mining_in_zone(&mut zone, 1, node_id);
    assert!(result.is_none(), "Expected success (None), got: {:?}", result);

    let pi = zone.player_index(1).unwrap();
    assert_eq!(zone.players[pi].mining_node_id, Some(node_id));
}

#[test]
fn start_mining_fails_when_node_not_found() {
    let mut zone = make_zone();
    let player = Player::new(1, 0, 0, "tester".to_string());
    zone.add_player(player);

    let result = start_mining_in_zone(&mut zone, 1, 99999);
    assert_eq!(result, Some("Node not found".to_string()));
}

#[test]
fn start_mining_fails_when_too_far_from_node() {
    let mut zone = make_zone();
    let node = make_node(11, "iron", 500_000, 500_000, 1);
    let node_id = node.id;
    zone.add_node(node);

    let player = Player::new(1, 0, 0, "tester".to_string());
    zone.add_player(player);

    let result = start_mining_in_zone(&mut zone, 1, node_id);
    assert_eq!(result, Some("Too far from node".to_string()));
}

#[test]
fn start_mining_fails_when_node_depleted() {
    let mut zone = make_zone();
    let mut node = make_node(12, "iron", 10_000, 10_000, 1);
    let node_id = node.id;
    let total = node.current_amount;
    node.extract(total, 0);
    assert!(!node.is_available());
    zone.add_node(node);

    let player = Player::new(1, 10_000, 10_000, "tester".to_string());
    zone.add_player(player);

    let result = start_mining_in_zone(&mut zone, 1, node_id);
    assert_eq!(result, Some("Node is depleted".to_string()));
}

#[test]
fn start_mining_fails_when_inventory_full() {
    let mut zone = make_zone();
    let node = make_node(13, "iron", 0, 0, 1);
    let node_id = node.id;
    zone.add_node(node);

    let mut player = Player::new(1, 0, 0, "tester".to_string());
    player.inventory.add("junk", config::INVENTORY_CAPACITY);
    zone.add_player(player);

    let result = start_mining_in_zone(&mut zone, 1, node_id);
    assert_eq!(result, Some("Inventory full".to_string()));
}

#[test]
fn process_mining_tick_extracts_resources() {
    let mut zone = make_zone();
    // Quality 1: total 100.00, extraction 10.00 per tick.
    let node = make_node(14, "iron", 0, 0, 1);
    let node_id = node.id;
    zone.add_node(node);

    let player = Player::new(1, 0, 0, "miner".to_string());
    zone.add_player(player);

    let err = start_mining_in_zone(&mut zone, 1, node_id);
    assert!(err.is_none());

    let results = process_mining_tick(&mut zone, 50);
    assert_eq!(results.len(), 1);

    let r = &results[0];
    assert_eq!(r.player_id, 1);
    assert!(!r.stopped);

    let update = r.update.as_ref().expect("should have a mining update");
    assert_eq!(update.node_id, node_id);
    assert!(update.amount_extracted_centi > 0);
    assert_eq!(update.resource_type, "iron");

    let pi = zone.player_index(1).unwrap();
    assert!(zone.players[pi].inventory.total() > 0);
}

#[test]
fn process_mining_tick_stops_when_node_depleted() {
    let mut zone = make_zone();
    let mut node = make_node(15, "copper", 0, 0, 1);
    let node_id = node.id;
    // Drain down to one unit (100 centi).
    let drain = node.current_amount - 100;
    node.extract(drain, 0);
    assert!(node.is_available());
    zone.add_node(node);

    let player = Player::new(1, 0, 0, "miner".to_string());
    zone.add_player(player);

    let err = start_mining_in_zone(&mut zone, 1, node_id);
    assert!(err.is_none());

    let results = process_mining_tick(&mut zone, 50);
    assert_eq!(results.len(), 1);

    let r = &results[0];
    assert!(r.depleted.is_some(), "node should be reported as depleted");
    assert_eq!(r.depleted.unwrap(), node_id);

    let ni = zone.node_index(node_id).unwrap();
    assert!(!zone.resource_nodes[ni].is_available());

    let pi = zone.player_index(1).unwrap();
    assert_eq!(zone.players[pi].mining_node_id, None);
}

#[test]
fn process_mining_tick_skips_non_mining_players() {
    let mut zone = make_zone();
    let player = Player::new(1, 0, 0, "idle".to_string());
    zone.add_player(player);

    let results = process_mining_tick(&mut zone, 50);
    assert!(results.is_empty());
}

#[test]
fn fractional_remainder_extracts_exactly_then_depletes() {
    // A node holding 0.50 units against an extraction rate of 10.00
    // yields exactly 0.50 on the extracting tick and depletes.
    let mut node = make_node(16, "iron", 0, 0, 1);
    let drain = node.current_amount - 50;
    node.extract(drain, 0);
    assert_eq!(node.current_amount, 50);

    let got = node.extract(1_000, 1_000);
    assert_eq!(got, 50);
    assert_eq!(node.current_amount, 0);
    assert!(!node.is_available());
    assert_eq!(node.depleted_at, Some(1_000));
}

#[test]
fn mining_and_depletion_scenario() {
    // Node with total 100.00 at the origin, quality one; the miner sits
    // on it.  Ten ticks drain it: the inventory gains 100 iron and the
    // node reports depletion; thirty seconds later it is full again.
    let mut zone = make_zone();
    let node = make_node(17, "iron", 0, 0, 1);
    let node_id = node.id;
    zone.add_node(node);
    let player = Player::new(1, 0, 0, "miner".to_string());
    zone.add_player(player);

    assert!(start_mining_in_zone(&mut zone, 1, node_id).is_none());

    let mut updates = 0;
    let mut depleted = 0;
    for tick in 0..10 {
        let now = 50 * (tick as u64 + 1);
        let results = process_mining_tick(&mut zone, now);
        for r in &results {
            if r.update.is_some() {
                updates += 1;
            }
            if r.depleted.is_some() {
                depleted += 1;
            }
        }
    }
    assert_eq!(updates, 10, "one progress report per tick");
    assert_eq!(depleted, 1, "exactly one depletion notice");

    let ni = zone.node_index(node_id).unwrap();
    assert_eq!(zone.resource_nodes[ni].current_amount, 0);
    let pi = zone.player_index(1).unwrap();
    assert_eq!(zone.players[pi].inventory.get("iron"), 100);

    // After the 30 s respawn the node is available and full again.
    let respawned = zone.tick_respawns(500 + 30_000);
    assert_eq!(respawned, vec![node_id]);
    let ni = zone.node_index(node_id).unwrap();
    assert_eq!(zone.resource_nodes[ni].current_amount, 10_000);
}

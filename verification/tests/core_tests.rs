use odyssey_core::codec::{decode_message, encode_message, is_disconnect_sentinel};
use odyssey_core::config;
use odyssey_core::inventory::Inventory;
use odyssey_core::movement::simulate_movement;
use odyssey_core::node::ResourceNode;
use odyssey_core::persist::{clamp_restored_vitals, restore_inventory};
use odyssey_core::player::{Player, PlayerState};

#[test]
fn encode_then_decode_round_trips() {
    let body: Vec<u8> = vec![0x81, 0xa3, 0x66, 0x6f, 0x6f, 0x01];
    let frame = encode_message(0x04, &body);
    assert_eq!(frame[0], 0x04);
    let (type_id, decoded) = decode_message(&frame).expect("frame should decode");
    assert_eq!(type_id, 0x04);
    assert_eq!(decoded, body);
}

#[test]
fn short_frames_are_refused() {
    let empty: Vec<u8> = Vec::new();
    assert!(decode_message(&empty).is_err());
    let one: Vec<u8> = vec![0x01];
    assert!(decode_message(&one).is_err());
}

#[test]
fn disconnect_sentinel_is_detected() {
    let sentinel: Vec<u8> = vec![0xFF];
    assert!(is_disconnect_sentinel(&sentinel));
    let other: Vec<u8> = vec![0xFF, 0x00];
    assert!(!is_disconnect_sentinel(&other));
}

#[test]
fn inventory_add_remove_and_capacity() {
    let mut inv = Inventory::new(config::INVENTORY_CAPACITY);
    assert!(inv.add("iron", 150));
    assert!(inv.add("copper", 50));
    // The capacity of 200 is now exhausted.
    assert!(!inv.add("iron", 1));
    assert_eq!(inv.total(), 200);

    assert!(inv.remove("iron", 150));
    assert_eq!(inv.get("iron"), 0);
    assert_eq!(inv.total(), 50);
    assert!(!inv.remove("iron", 1));
}

#[test]
fn omen_never_goes_negative() {
    let mut inv = Inventory::new(config::INVENTORY_CAPACITY);
    assert_eq!(inv.omen_balance, config::STARTING_OMEN_CENTI);
    assert!(!inv.remove_omen(config::STARTING_OMEN_CENTI + 1));
    assert_eq!(inv.omen_balance, config::STARTING_OMEN_CENTI);
    assert!(inv.remove_omen(config::STARTING_OMEN_CENTI));
    assert_eq!(inv.omen_balance, 0);
    assert!(!inv.remove_omen(1));
}

#[test]
fn node_invariant_holds_through_extraction_and_respawn() {
    let mut node = ResourceNode::new(5, "iron".to_string(), 0, 0, 3);
    // Quality 3: total = 100 + 2 × 50 = 200.00.
    assert_eq!(node.total_amount, 20_000);
    assert!(node.depleted_at.is_none());

    let got = node.extract(5_000, 100);
    assert_eq!(got, 5_000);
    assert_eq!(node.current_amount, 15_000);
    assert!(node.depleted_at.is_none());

    let got = node.extract(50_000, 200);
    assert_eq!(got, 15_000);
    assert_eq!(node.current_amount, 0);
    assert_eq!(node.depleted_at, Some(200));

    // Not yet due.
    assert!(!node.tick_respawn(200 + 29_999));
    assert!(node.tick_respawn(200 + 30_000));
    assert_eq!(node.current_amount, 20_000);
    assert!(node.depleted_at.is_none());
}

#[test]
fn diagonal_movement_speed_is_exactly_the_move_speed() {
    let state = PlayerState { id: 1, x: 0, y: 0, vx: 0, vy: 0, facing_x: 1000, facing_y: 0 };
    // Full diagonal input (1, 1) in thousandths.
    let after = simulate_movement(&state, 1000, 1000, 50);
    let speed_sq = after.vx * after.vx + after.vy * after.vy;
    let limit = config::MOVE_SPEED_MILLI * config::MOVE_SPEED_MILLI;
    assert_eq!(speed_sq, limit, "diagonal speed equals, and does not exceed, the move speed");
}

#[test]
fn straight_movement_covers_speed_times_dt() {
    let state = PlayerState { id: 1, x: 0, y: 0, vx: 0, vy: 0, facing_x: 1000, facing_y: 0 };
    // Forward-right (1, -1)... use (1, 0): the isometric basis maps it
    // onto the diagonal, so check only the magnitude of the step.
    let after = simulate_movement(&state, 1000, 0, 50);
    let speed_sq = after.vx * after.vx + after.vy * after.vy;
    let limit = config::MOVE_SPEED_MILLI * config::MOVE_SPEED_MILLI;
    assert!(speed_sq <= limit);
    // A single axis still moves at (very nearly) full speed.
    assert!(speed_sq >= limit - limit / 250);
}

#[test]
fn zero_input_stops_the_ship() {
    let state = PlayerState { id: 1, x: 5_000, y: 6_000, vx: 100, vy: 100, facing_x: 1000, facing_y: 0 };
    let after = simulate_movement(&state, 0, 0, 50);
    assert_eq!(after.vx, 0);
    assert_eq!(after.vy, 0);
    assert_eq!(after.x, 5_000);
    assert_eq!(after.y, 6_000);
}

#[test]
fn save_then_restore_preserves_inventory_and_vitals() {
    // Build a player inventory, export its entries, restore them, and
    // compare: the counts and balance survive the round trip, and the
    // vitals come back clamped to the current maxima.
    let mut player = Player::new(9, 0, 0, "saver".to_string());
    player.inventory.add("iron", 30);
    player.inventory.add("copper_wire", 4);
    player.inventory.remove_omen(123_45);

    let entries = player.inventory.get_all().clone();
    let restored = restore_inventory(player.inventory.omen_balance, &entries);
    assert_eq!(restored.get("iron"), 30);
    assert_eq!(restored.get("copper_wire"), 4);
    assert_eq!(restored.get("gold"), 0);
    assert_eq!(restored.omen_balance, player.inventory.omen_balance);
    assert_eq!(restored.total(), player.inventory.total());

    // Saved vitals above the ship's current maxima come back clamped.
    let (hp, shield) = clamp_restored_vitals(250, 10, 100, 50);
    assert_eq!(hp, 100);
    assert_eq!(shield, 10);
}

#[test]
fn diagonal_input_moves_at_exactly_full_speed() {
    // A full north-east input lands exactly on the isometric forward
    // axis: full speed along x, nothing along y.
    let state = PlayerState { id: 1, x: 0, y: 0, vx: 0, vy: 0, facing_x: 0, facing_y: 1000 };
    let next = simulate_movement(&state, 1000, 1000, 100);
    assert_eq!(next.vx, config::MOVE_SPEED_MILLI);
    assert_eq!(next.vy, 0);
}

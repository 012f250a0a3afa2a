use odyssey_core::equipment::{EquipmentSlotType, PlayerEquipment};

#[test]
fn new_equipment_has_all_slots_empty() {
    let equip = PlayerEquipment::new();
    for slot in odyssey_core::equipment::all_slots() {
        assert!(
            equip.get_slot(slot).is_none(),
            "Expected slot {:?} to be empty on new equipment",
            slot
        );
    }
}

#[test]
fn equip_valid_item_succeeds() {
    let mut equip = PlayerEquipment::new();
    let result = equip.equip("mining_laser");
    assert!(result.success);
    assert!(result.old_item.is_none());
    assert!(result.error.is_none());
    let slot_item = equip.get_slot(EquipmentSlotType::MiningLaser);
    assert!(slot_item.is_some());
    assert_eq!(slot_item.unwrap().item_type, "mining_laser");
}

#[test]
fn equip_invalid_item_returns_error() {
    let mut equip = PlayerEquipment::new();
    let result = equip.equip("nonexistent_item");
    assert!(!result.success);
    assert!(result.old_item.is_none());
    assert!(result.error.is_some());
}

#[test]
fn equip_occupied_slot_returns_swapped_item() {
    let mut equip = PlayerEquipment::new();

    let first = equip.equip("hull_panel");
    assert!(first.success);
    assert!(first.old_item.is_none());

    let second = equip.equip("iron_plate");
    assert!(second.success);
    assert_eq!(second.old_item, Some("hull_panel".to_string()));

    let slot_item = equip.get_slot(EquipmentSlotType::Armor);
    assert!(slot_item.is_some());
    assert_eq!(slot_item.unwrap().item_type, "iron_plate");
}

#[test]
fn unequip_occupied_slot_returns_removed_item() {
    let mut equip = PlayerEquipment::new();
    equip.equip("thruster");

    let result = equip.unequip(EquipmentSlotType::Engine);
    assert_eq!(result.removed_item, Some("thruster".to_string()));
    assert!(result.error.is_none());

    assert!(equip.get_slot(EquipmentSlotType::Engine).is_none());
}

#[test]
fn unequip_empty_slot_returns_error() {
    let mut equip = PlayerEquipment::new();
    let result = equip.unequip(EquipmentSlotType::Shield);
    assert!(result.removed_item.is_none());
    assert!(result.error.is_some());
}

#[test]
fn aggregate_stats_sums_multiple_equipped_items() {
    let mut equip = PlayerEquipment::new();

    // mining_laser: +50 % mining; thruster: +20 % speed; hull_panel:
    // +25.00 flat armor (bonuses are in hundredths).
    equip.equip("mining_laser");
    equip.equip("thruster");
    equip.equip("hull_panel");

    let stats = equip.get_aggregate_stats();

    assert_eq!(stats.mining_bonus, 50);
    assert_eq!(stats.speed_bonus, 20);
    assert_eq!(stats.armor_bonus, 2_500);
    assert_eq!(stats.damage, 0);
    assert_eq!(stats.range, 0);
    assert_eq!(stats.shield_bonus, 0);
    assert_eq!(stats.cargo_bonus, 0);
}

#[test]
fn slot_name_round_trip() {
    for slot in odyssey_core::equipment::all_slots() {
        let name = slot.as_str();
        assert_eq!(EquipmentSlotType::from_str(name), Some(slot));
    }
    assert_eq!(EquipmentSlotType::from_str("helmet"), None);
}

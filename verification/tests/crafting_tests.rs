use odyssey_core::config;
use odyssey_core::crafting::{
    get_recipe, process_crafting_tick, try_start_craft, CraftingQueue, MAX_CONCURRENT_JOBS,
};
use odyssey_core::inventory::Inventory;

fn make_inventory() -> Inventory {
    Inventory::new(config::INVENTORY_CAPACITY)
}

#[test]
fn test_recipe_lookup() {
    assert!(get_recipe("iron_plate").is_some());
    assert!(get_recipe("thruster").is_some());
    assert!(get_recipe("nonexistent").is_none());
}

#[test]
fn test_craft_success() {
    let mut inv = make_inventory();
    inv.add("iron", 20);
    let mut queue = CraftingQueue::new(1);

    let result = try_start_craft(&mut inv, &mut queue, "iron_plate", 0);
    assert!(result.success);
    assert!(result.job.is_some());
    assert_eq!(inv.get("iron"), 10);
    assert_eq!(queue.active_count(), 1);
}

#[test]
fn test_craft_insufficient_resources() {
    let mut inv = make_inventory();
    inv.add("iron", 5);
    let mut queue = CraftingQueue::new(1);

    let result = try_start_craft(&mut inv, &mut queue, "iron_plate", 0);
    assert!(!result.success);
    assert!(result.reason.unwrap().contains("Insufficient"));
    assert_eq!(inv.get("iron"), 5);
}

#[test]
fn test_craft_queue_full() {
    let mut inv = make_inventory();
    inv.add("iron", 100);
    let mut queue = CraftingQueue::new(1);

    for _ in 0..MAX_CONCURRENT_JOBS {
        let r = try_start_craft(&mut inv, &mut queue, "iron_plate", 0);
        assert!(r.success);
    }

    let result = try_start_craft(&mut inv, &mut queue, "iron_plate", 0);
    assert!(!result.success);
    assert!(result.reason.unwrap().contains("queue full"));
}

#[test]
fn test_process_tick_completes_jobs() {
    let mut inv = make_inventory();
    inv.add("iron", 10);
    let mut queue = CraftingQueue::new(1);

    let result = try_start_craft(&mut inv, &mut queue, "iron_plate", 0);
    assert!(result.success);

    // Not done at 2 s; done at 3 s (the iron plate takes 3 s).
    let completed = process_crafting_tick(&mut queue, 2_000, &mut inv);
    assert!(completed.is_empty());

    let completed = process_crafting_tick(&mut queue, 3_000, &mut inv);
    assert_eq!(completed.len(), 1);
    assert!(completed[0].added);
    assert_eq!(inv.get("iron_plate"), 1);
}

#[test]
fn test_prune_finished() {
    let mut inv = make_inventory();
    inv.add("copper", 10);
    let mut queue = CraftingQueue::new(1);

    try_start_craft(&mut inv, &mut queue, "copper_wire", 0);
    process_crafting_tick(&mut queue, 10_000, &mut inv);

    let pruned = queue.prune_finished();
    assert_eq!(pruned.len(), 1);
    assert_eq!(queue.active_count(), 0);
}

#[test]
fn crafting_queue_full_scenario() {
    // A player with 100 iron starts the iron plate recipe four times at
    // t = 0: the first three take 30 iron in total, the fourth is
    // refused for a full queue; at the recipe time all three finish.
    let mut inv = make_inventory();
    inv.add("iron", 100);
    let mut queue = CraftingQueue::new(7);

    for _ in 0..3 {
        let r = try_start_craft(&mut inv, &mut queue, "iron_plate", 0);
        assert!(r.success);
    }
    assert_eq!(inv.get("iron"), 70);

    let fourth = try_start_craft(&mut inv, &mut queue, "iron_plate", 0);
    assert!(!fourth.success);
    assert!(fourth.reason.unwrap().contains("queue full"));
    assert_eq!(inv.get("iron"), 70);

    let completed = process_crafting_tick(&mut queue, 3_000, &mut inv);
    assert_eq!(completed.len(), 3);
    assert!(completed.iter().all(|c| c.added));
    assert_eq!(inv.get("iron"), 70);
    assert_eq!(inv.get("iron_plate"), 3);
}

#[test]
fn craft_failure_when_inventory_full_consumes_inputs() {
    // The output cannot be stored: the job fails and the inputs stay
    // consumed.
    let mut inv = make_inventory();
    inv.add("iron", 10);
    inv.add("junk", config::INVENTORY_CAPACITY - 10);
    let mut queue = CraftingQueue::new(1);

    let r = try_start_craft(&mut inv, &mut queue, "iron_plate", 0);
    assert!(r.success);
    assert_eq!(inv.get("iron"), 0);

    // Fill the freed room so the output cannot fit.
    inv.add("junk", 10);
    let completed = process_crafting_tick(&mut queue, 3_000, &mut inv);
    assert_eq!(completed.len(), 1);
    assert!(!completed[0].added);
    assert_eq!(inv.get("iron_plate"), 0);
    assert_eq!(inv.get("iron"), 0);
}

#[test]
fn craft_refusals_name_their_reasons() {
    let mut inv = Inventory::new(10_000);
    let mut queue = CraftingQueue::new(1);
    let r = try_start_craft(&mut inv, &mut queue, "no_such_recipe", 0);
    assert!(!r.success);
    assert_eq!(r.reason.as_deref(), Some("Unknown recipe"));

    let r2 = try_start_craft(&mut inv, &mut queue, "iron_plate", 0);
    assert!(!r2.success);
    assert_eq!(r2.reason.as_deref(), Some("Insufficient materials for this recipe"));
}

#[test]
fn three_due_jobs_complete_and_deliver_outputs() {
    let mut inv = Inventory::new(10_000);
    inv.add("iron", 100);
    let mut queue = CraftingQueue::new(1);
    for _ in 0..3 {
        let r = try_start_craft(&mut inv, &mut queue, "iron_plate", 0);
        assert!(r.success);
    }
    assert_eq!(inv.get("iron"), 70);

    let done = process_crafting_tick(&mut queue, 10_000, &mut inv);
    assert_eq!(done.len(), 3);
    for c in &done {
        assert!(c.added);
        assert_eq!(c.output_amount, 1);
    }
    assert_eq!(inv.get("iron_plate"), 3);
    assert_eq!(inv.get("iron"), 70);
}

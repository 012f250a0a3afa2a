use odyssey_core::quest::QuestObjectiveType;
use odyssey_core::quest_tracker::QuestTracker;

#[test]
fn new_tracker_has_no_active_quests() {
    let tracker = QuestTracker::new(1);
    assert!(tracker.get_active_quests().is_empty());
}

#[test]
fn accept_valid_quest_succeeds() {
    let mut tracker = QuestTracker::new(1);
    let result = tracker.accept_quest("first_steps", 1);
    assert!(result.is_none(), "Expected None (success), got: {:?}", result.map(|s| s));
    assert!(tracker.is_quest_active("first_steps"));
}

#[test]
fn accept_unknown_quest_returns_error() {
    let mut tracker = QuestTracker::new(1);
    let result = tracker.accept_quest("nonexistent_quest_xyz", 10);
    assert!(result.is_some());
    assert_eq!(result.unwrap(), "Unknown quest");
}

#[test]
fn accept_already_active_quest_returns_error() {
    let mut tracker = QuestTracker::new(1);
    tracker.accept_quest("first_steps", 1);
    let result = tracker.accept_quest("first_steps", 1);
    assert!(result.is_some());
    assert_eq!(result.unwrap(), "Quest is already active");
}

#[test]
fn accept_quest_level_too_high_returns_error() {
    let mut tracker = QuestTracker::new(1);
    let result = tracker.accept_quest("pirate_hunter", 1);
    assert!(result.is_some());
    assert_eq!(result.unwrap(), "Requires level 6");
}

#[test]
fn abandon_active_quest_succeeds() {
    let mut tracker = QuestTracker::new(1);
    tracker.accept_quest("first_steps", 1);
    assert!(tracker.abandon_quest("first_steps"));
    assert!(!tracker.is_quest_active("first_steps"));
}

#[test]
fn abandon_non_active_quest_returns_false() {
    let mut tracker = QuestTracker::new(1);
    assert!(!tracker.abandon_quest("first_steps"));
}

#[test]
fn update_objective_advances_progress() {
    let mut tracker = QuestTracker::new(1);
    tracker.accept_quest("first_steps", 1);

    // first_steps requires mining 10 of anything.
    let updated = tracker.update_objective(QuestObjectiveType::Mine, "iron", 3);
    assert!(updated.iter().any(|id| id == "first_steps"));

    let progress = tracker.get_active_quest("first_steps").unwrap();
    assert_eq!(progress.objectives[0].current, 3);
}

#[test]
fn check_completion_returns_rewards_when_done() {
    let mut tracker = QuestTracker::new(1);
    tracker.accept_quest("first_steps", 1);

    tracker.update_objective(QuestObjectiveType::Mine, "iron", 10);

    let rewards = tracker.check_completion("first_steps");
    assert!(rewards.is_some(), "Expected rewards after completing all objectives");

    let rewards = rewards.unwrap();
    assert_eq!(rewards.len(), 2);
    // first_steps rewards: 50 omen, 100 xp.
    assert!(rewards.iter().any(|r| r.reward_type == "omen" && r.amount == 50));
    assert!(rewards.iter().any(|r| r.reward_type == "xp" && r.amount == 100));

    assert!(!tracker.is_quest_active("first_steps"));
    assert!(tracker.is_quest_completed("first_steps"));
}

#[test]
fn export_active_quests_returns_cloned_data() {
    let mut tracker = QuestTracker::new(1);
    tracker.accept_quest("first_steps", 1);
    tracker.accept_quest("daily_mining", 1);

    let exported = tracker.export_active_quests();
    assert_eq!(exported.len(), 2);

    let exported_ids: Vec<&str> = exported.iter().map(|p| p.quest_id.as_str()).collect();
    assert!(exported_ids.contains(&"first_steps"));
    assert!(exported_ids.contains(&"daily_mining"));

    let original_count = tracker.get_active_quests().len();
    drop(exported);
    assert_eq!(tracker.get_active_quests().len(), original_count);
}

#[test]
fn prerequisites_block_acceptance() {
    let mut tracker = QuestTracker::new(1);
    // crafting_basics needs first_steps completed.
    let result = tracker.accept_quest("crafting_basics", 10);
    assert!(result.is_some());
    assert!(result.unwrap().contains("Prerequisite not met"));
}

#[test]
fn pirate_any_matches_pirate_targets() {
    let mut tracker = QuestTracker::new(1);
    let r = tracker.accept_quest("pirate_hunter", 6);
    assert!(r.is_none());
    let updated = tracker.update_objective(QuestObjectiveType::Kill, "pirate", 2);
    assert!(updated.iter().any(|id| id == "pirate_hunter"));
    let progress = tracker.get_active_quest("pirate_hunter").unwrap();
    assert_eq!(progress.objectives[0].current, 2);
}

#[test]
fn restore_then_export_round_trips() {
    let mut source = QuestTracker::new(1);
    source.accept_quest("first_steps", 1);
    source.update_objective(QuestObjectiveType::Mine, "iron", 4);
    let saved = source.export_active_quests();

    let mut fresh = QuestTracker::new(1);
    fresh.restore_active_quests(saved);
    let exported = fresh.export_active_quests();
    assert_eq!(exported.len(), 1);
    assert_eq!(exported[0].quest_id, "first_steps");
    assert_eq!(exported[0].objectives[0].current, 4);
}

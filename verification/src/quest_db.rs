//! The quest table: a fixed set of quests keyed by id.
//!
//! The table's levels, repeatability and prerequisite edges are stated as
//! spec functions, so that acceptance rules can be proved against them.

use vstd::prelude::*;

use crate::quest::{Quest, QuestObjective, QuestObjectiveType, QuestReward};
use crate::util::str_eq;

verus! {

/// Whether a quest with this id exists.
pub open spec fn quest_known(id: Seq<char>) -> bool {
    ||| id == "first_steps"@
    ||| id == "crafting_basics"@
    ||| id == "market_trader"@
    ||| id == "iron_miner"@
    ||| id == "crystal_collector"@
    ||| id == "component_crafter"@
    ||| id == "weapon_smith"@
    ||| id == "pirate_hunter"@
    ||| id == "belt_cleaner"@
    ||| id == "system_explorer"@
    ||| id == "master_crafter"@
    ||| id == "fleet_commander"@
    ||| id == "daily_mining"@
    ||| id == "supply_run"@
}

/// The level required to accept the quest.
pub open spec fn spec_quest_level(id: Seq<char>) -> u32 {
    if id == "first_steps"@ {
        1
    } else     if id == "crafting_basics"@ {
        2
    } else     if id == "market_trader"@ {
        3
    } else     if id == "iron_miner"@ {
        2
    } else     if id == "crystal_collector"@ {
        5
    } else     if id == "component_crafter"@ {
        4
    } else     if id == "weapon_smith"@ {
        8
    } else     if id == "pirate_hunter"@ {
        6
    } else     if id == "belt_cleaner"@ {
        10
    } else     if id == "system_explorer"@ {
        3
    } else     if id == "master_crafter"@ {
        12
    } else     if id == "fleet_commander"@ {
        15
    } else     if id == "daily_mining"@ {
        1
    } else     if id == "supply_run"@ {
        5
    } else {
        0
    }
}

/// Whether the quest may be completed more than once.
pub open spec fn spec_quest_repeatable(id: Seq<char>) -> bool {
    if id == "first_steps"@ {
        false
    } else     if id == "crafting_basics"@ {
        false
    } else     if id == "market_trader"@ {
        false
    } else     if id == "iron_miner"@ {
        true
    } else     if id == "crystal_collector"@ {
        true
    } else     if id == "component_crafter"@ {
        true
    } else     if id == "weapon_smith"@ {
        true
    } else     if id == "pirate_hunter"@ {
        true
    } else     if id == "belt_cleaner"@ {
        true
    } else     if id == "system_explorer"@ {
        false
    } else     if id == "master_crafter"@ {
        false
    } else     if id == "fleet_commander"@ {
        false
    } else     if id == "daily_mining"@ {
        true
    } else     if id == "supply_run"@ {
        true
    } else {
        false
    }
}

/// The ids of the quests that must be completed first.
pub open spec fn spec_quest_prereqs(id: Seq<char>) -> Seq<Seq<char>> {
    if id == "first_steps"@ {
        Seq::<Seq<char>>::empty()
    } else     if id == "crafting_basics"@ {
        seq!["first_steps"@]
    } else     if id == "market_trader"@ {
        seq!["crafting_basics"@]
    } else     if id == "iron_miner"@ {
        seq!["first_steps"@]
    } else     if id == "crystal_collector"@ {
        seq!["iron_miner"@]
    } else     if id == "component_crafter"@ {
        seq!["crafting_basics"@]
    } else     if id == "weapon_smith"@ {
        seq!["component_crafter"@]
    } else     if id == "pirate_hunter"@ {
        Seq::<Seq<char>>::empty()
    } else     if id == "belt_cleaner"@ {
        seq!["pirate_hunter"@]
    } else     if id == "system_explorer"@ {
        seq!["first_steps"@]
    } else     if id == "master_crafter"@ {
        seq!["weapon_smith"@]
    } else     if id == "fleet_commander"@ {
        seq!["master_crafter"@, "belt_cleaner"@]
    } else     if id == "daily_mining"@ {
        Seq::<Seq<char>>::empty()
    } else     if id == "supply_run"@ {
        Seq::<Seq<char>>::empty()
    } else {
        Seq::<Seq<char>>::empty()
    }
}

/// What every table entry satisfies: its own fields agree with the spec
/// functions for its id, and its objectives start at zero progress.
/// The OMEN reward of the quest, whole OMEN.
pub open spec fn spec_quest_omen(id: Seq<char>) -> u64 {
    if id == "first_steps"@ {
        50
    } else if id == "crafting_basics"@ {
        100
    } else if id == "market_trader"@ {
        200
    } else if id == "iron_miner"@ {
        150
    } else if id == "crystal_collector"@ {
        300
    } else if id == "component_crafter"@ {
        250
    } else if id == "weapon_smith"@ {
        500
    } else if id == "pirate_hunter"@ {
        400
    } else if id == "belt_cleaner"@ {
        600
    } else if id == "system_explorer"@ {
        300
    } else if id == "master_crafter"@ {
        1000
    } else if id == "fleet_commander"@ {
        2000
    } else if id == "daily_mining"@ {
        200
    } else if id == "supply_run"@ {
        350
    } else {
        0
    }
}

/// The XP reward of the quest.
pub open spec fn spec_quest_xp(id: Seq<char>) -> u64 {
    if id == "first_steps"@ {
        100
    } else if id == "crafting_basics"@ {
        200
    } else if id == "market_trader"@ {
        300
    } else if id == "iron_miner"@ {
        250
    } else if id == "crystal_collector"@ {
        500
    } else if id == "component_crafter"@ {
        400
    } else if id == "weapon_smith"@ {
        800
    } else if id == "pirate_hunter"@ {
        600
    } else if id == "belt_cleaner"@ {
        1000
    } else if id == "system_explorer"@ {
        400
    } else if id == "master_crafter"@ {
        1500
    } else if id == "fleet_commander"@ {
        3000
    } else if id == "daily_mining"@ {
        300
    } else if id == "supply_run"@ {
        500
    } else {
        0
    }
}

pub open spec fn quest_entry_wf(q: Quest) -> bool {
    &&& quest_known(q.id@)
    &&& q.level == spec_quest_level(q.id@)
    &&& q.is_repeatable == spec_quest_repeatable(q.id@)
    &&& q.prerequisites@.len() == spec_quest_prereqs(q.id@).len()
    &&& (forall|i: int|
        0 <= i < q.prerequisites@.len() ==> (#[trigger] q.prerequisites@[i])@
            == spec_quest_prereqs(q.id@)[i])
    &&& q.objectives@.len() >= 1
    &&& (forall|i: int| 0 <= i < q.objectives@.len() ==> (#[trigger] q.objectives@[i]).current == 0)
    &&& (forall|i: int| 0 <= i < q.objectives@.len() ==> (#[trigger] q.objectives@[i]).required > 0)
    &&& q.rewards@.len() == 2
    &&& q.rewards@[0].reward_type@ == "omen"@
    &&& q.rewards@[0].amount == spec_quest_omen(q.id@)
    &&& q.rewards@[1].reward_type@ == "xp"@
    &&& q.rewards@[1].amount == spec_quest_xp(q.id@)
}

fn make_objective(objective_type: QuestObjectiveType, target: &str, required: u32) -> (r:
    QuestObjective)
    requires
        required > 0,
    ensures
        r.objective_type == objective_type,
        r.target@ == target@,
        r.required == required,
        r.current == 0,
{
    QuestObjective { objective_type, target: target.to_owned(), required, current: 0 }
}

fn make_reward(reward_type: &str, amount: u64) -> (r: QuestReward)
    ensures
        r.reward_type@ == reward_type@,
        r.amount == amount,
{
    QuestReward { reward_type: reward_type.to_owned(), amount }
}

fn quest_first_steps() -> (r: Quest)
    ensures
        r.id@ == "first_steps"@,
        quest_entry_wf(r),
{
    let mut prereqs: Vec<String> = Vec::new();
    let mut objectives: Vec<QuestObjective> = Vec::new();
    objectives.push(make_objective(QuestObjectiveType::Mine, "any", 10));
    let mut rewards: Vec<QuestReward> = Vec::new();
    rewards.push(make_reward("omen", 50));
    rewards.push(make_reward("xp", 100));
    let q = Quest {
        id: "first_steps".to_owned(),
        title: "First Steps".to_owned(),
        description: "Learn the basics of space exploration by mining your first resource.".to_owned(),
        level: 1,
        prerequisites: prereqs,
        is_repeatable: false,
        objectives,
        rewards,
    };
    proof {
        reveal_strlit("first_steps");
        assert(("first_steps"@).len() == 11);
        assert(("first_steps"@)[0] == 'f');
    }
    q
}

fn quest_crafting_basics() -> (r: Quest)
    ensures
        r.id@ == "crafting_basics"@,
        quest_entry_wf(r),
{
    let mut prereqs: Vec<String> = Vec::new();
    prereqs.push("first_steps".to_owned());
    let mut objectives: Vec<QuestObjective> = Vec::new();
    objectives.push(make_objective(QuestObjectiveType::Craft, "any", 1));
    let mut rewards: Vec<QuestReward> = Vec::new();
    rewards.push(make_reward("omen", 100));
    rewards.push(make_reward("xp", 200));
    let q = Quest {
        id: "crafting_basics".to_owned(),
        title: "Crafting Basics".to_owned(),
        description: "Learn to craft items by creating your first component.".to_owned(),
        level: 2,
        prerequisites: prereqs,
        is_repeatable: false,
        objectives,
        rewards,
    };
    proof {
        reveal_strlit("first_steps");
        reveal_strlit("crafting_basics");
        assert(("first_steps"@).len() == 11);
        assert(("crafting_basics"@).len() == 15);
        assert(("first_steps"@)[0] == 'f');
        assert(("crafting_basics"@)[0] == 'c');
    }
    q
}

fn quest_market_trader() -> (r: Quest)
    ensures
        r.id@ == "market_trader"@,
        quest_entry_wf(r),
{
    let mut prereqs: Vec<String> = Vec::new();
    prereqs.push("crafting_basics".to_owned());
    let mut objectives: Vec<QuestObjective> = Vec::new();
    objectives.push(make_objective(QuestObjectiveType::Sell, "any", 5));
    let mut rewards: Vec<QuestReward> = Vec::new();
    rewards.push(make_reward("omen", 200));
    rewards.push(make_reward("xp", 300));
    let q = Quest {
        id: "market_trader".to_owned(),
        title: "Market Trader".to_owned(),
        description: "Participate in the economy by selling items on the market.".to_owned(),
        level: 3,
        prerequisites: prereqs,
        is_repeatable: false,
        objectives,
        rewards,
    };
    proof {
        reveal_strlit("first_steps");
        reveal_strlit("crafting_basics");
        reveal_strlit("market_trader");
        assert(("first_steps"@).len() == 11);
        assert(("crafting_basics"@).len() == 15);
        assert(("market_trader"@).len() == 13);
        assert(("first_steps"@)[0] == 'f');
        assert(("crafting_basics"@)[0] == 'c');
        assert(("market_trader"@)[0] == 'm');
    }
    q
}

fn quest_iron_miner() -> (r: Quest)
    ensures
        r.id@ == "iron_miner"@,
        quest_entry_wf(r),
{
    let mut prereqs: Vec<String> = Vec::new();
    prereqs.push("first_steps".to_owned());
    let mut objectives: Vec<QuestObjective> = Vec::new();
    objectives.push(make_objective(QuestObjectiveType::Mine, "iron", 50));
    let mut rewards: Vec<QuestReward> = Vec::new();
    rewards.push(make_reward("omen", 150));
    rewards.push(make_reward("xp", 250));
    let q = Quest {
        id: "iron_miner".to_owned(),
        title: "Iron Miner".to_owned(),
        description: "Gather iron ore to support the colony's infrastructure.".to_owned(),
        level: 2,
        prerequisites: prereqs,
        is_repeatable: true,
        objectives,
        rewards,
    };
    proof {
        reveal_strlit("first_steps");
        reveal_strlit("crafting_basics");
        reveal_strlit("market_trader");
        reveal_strlit("iron_miner");
        assert(("first_steps"@).len() == 11);
        assert(("crafting_basics"@).len() == 15);
        assert(("market_trader"@).len() == 13);
        assert(("iron_miner"@).len() == 10);
        assert(("first_steps"@)[0] == 'f');
        assert(("crafting_basics"@)[0] == 'c');
        assert(("market_trader"@)[0] == 'm');
        assert(("iron_miner"@)[0] == 'i');
    }
    q
}

fn quest_crystal_collector() -> (r: Quest)
    ensures
        r.id@ == "crystal_collector"@,
        quest_entry_wf(r),
{
    let mut prereqs: Vec<String> = Vec::new();
    prereqs.push("iron_miner".to_owned());
    let mut objectives: Vec<QuestObjective> = Vec::new();
    objectives.push(make_objective(QuestObjectiveType::Mine, "crystal", 20));
    let mut rewards: Vec<QuestReward> = Vec::new();
    rewards.push(make_reward("omen", 300));
    rewards.push(make_reward("xp", 500));
    let q = Quest {
        id: "crystal_collector".to_owned(),
        title: "Crystal Collector".to_owned(),
        description: "Harvest rare crystals needed for advanced technology.".to_owned(),
        level: 5,
        prerequisites: prereqs,
        is_repeatable: true,
        objectives,
        rewards,
    };
    proof {
        reveal_strlit("first_steps");
        reveal_strlit("crafting_basics");
        reveal_strlit("market_trader");
        reveal_strlit("iron_miner");
        reveal_strlit("crystal_collector");
        assert(("first_steps"@).len() == 11);
        assert(("crafting_basics"@).len() == 15);
        assert(("market_trader"@).len() == 13);
        assert(("iron_miner"@).len() == 10);
        assert(("crystal_collector"@).len() == 17);
        assert(("first_steps"@)[0] == 'f');
        assert(("crafting_basics"@)[0] == 'c');
        assert(("market_trader"@)[0] == 'm');
        assert(("iron_miner"@)[0] == 'i');
        assert(("crystal_collector"@)[0] == 'c');
    }
    q
}

fn quest_component_crafter() -> (r: Quest)
    ensures
        r.id@ == "component_crafter"@,
        quest_entry_wf(r),
{
    let mut prereqs: Vec<String> = Vec::new();
    prereqs.push("crafting_basics".to_owned());
    let mut objectives: Vec<QuestObjective> = Vec::new();
    objectives.push(make_objective(QuestObjectiveType::Craft, "component", 10));
    let mut rewards: Vec<QuestReward> = Vec::new();
    rewards.push(make_reward("omen", 250));
    rewards.push(make_reward("xp", 400));
    let q = Quest {
        id: "component_crafter".to_owned(),
        title: "Component Crafter".to_owned(),
        description: "Create essential ship components for the fleet.".to_owned(),
        level: 4,
        prerequisites: prereqs,
        is_repeatable: true,
        objectives,
        rewards,
    };
    proof {
        reveal_strlit("first_steps");
        reveal_strlit("crafting_basics");
        reveal_strlit("market_trader");
        reveal_strlit("iron_miner");
        reveal_strlit("crystal_collector");
        reveal_strlit("component_crafter");
        assert(("first_steps"@).len() == 11);
        assert(("crafting_basics"@).len() == 15);
        assert(("market_trader"@).len() == 13);
        assert(("iron_miner"@).len() == 10);
        assert(("crystal_collector"@).len() == 17);
        assert(("component_crafter"@).len() == 17);
        assert(("first_steps"@)[0] == 'f');
        assert(("crafting_basics"@)[0] == 'c');
        assert(("market_trader"@)[0] == 'm');
        assert(("iron_miner"@)[0] == 'i');
        assert(("crystal_collector"@)[0] == 'c');
        assert(("component_crafter"@)[0] == 'c');
        assert(("component_crafter"@)[1] == 'o');
        assert(("crystal_collector"@)[1] == 'r');
    }
    q
}

fn quest_weapon_smith() -> (r: Quest)
    ensures
        r.id@ == "weapon_smith"@,
        quest_entry_wf(r),
{
    let mut prereqs: Vec<String> = Vec::new();
    prereqs.push("component_crafter".to_owned());
    let mut objectives: Vec<QuestObjective> = Vec::new();
    objectives.push(make_objective(QuestObjectiveType::Craft, "weapon", 3));
    let mut rewards: Vec<QuestReward> = Vec::new();
    rewards.push(make_reward("omen", 500));
    rewards.push(make_reward("xp", 800));
    let q = Quest {
        id: "weapon_smith".to_owned(),
        title: "Weapon Smith".to_owned(),
        description: "Forge weapons to defend against hostile forces.".to_owned(),
        level: 8,
        prerequisites: prereqs,
        is_repeatable: true,
        objectives,
        rewards,
    };
    proof {
        reveal_strlit("first_steps");
        reveal_strlit("crafting_basics");
        reveal_strlit("market_trader");
        reveal_strlit("iron_miner");
        reveal_strlit("crystal_collector");
        reveal_strlit("component_crafter");
        reveal_strlit("weapon_smith");
        assert(("first_steps"@).len() == 11);
        assert(("crafting_basics"@).len() == 15);
        assert(("market_trader"@).len() == 13);
        assert(("iron_miner"@).len() == 10);
        assert(("crystal_collector"@).len() == 17);
        assert(("component_crafter"@).len() == 17);
        assert(("weapon_smith"@).len() == 12);
        assert(("first_steps"@)[0] == 'f');
        assert(("crafting_basics"@)[0] == 'c');
        assert(("market_trader"@)[0] == 'm');
        assert(("iron_miner"@)[0] == 'i');
        assert(("crystal_collector"@)[0] == 'c');
        assert(("component_crafter"@)[0] == 'c');
        assert(("weapon_smith"@)[0] == 'w');
    }
    q
}

fn quest_pirate_hunter() -> (r: Quest)
    ensures
        r.id@ == "pirate_hunter"@,
        quest_entry_wf(r),
{
    let mut prereqs: Vec<String> = Vec::new();
    let mut objectives: Vec<QuestObjective> = Vec::new();
    objectives.push(make_objective(QuestObjectiveType::Kill, "pirate_any", 5));
    let mut rewards: Vec<QuestReward> = Vec::new();
    rewards.push(make_reward("omen", 400));
    rewards.push(make_reward("xp", 600));
    let q = Quest {
        id: "pirate_hunter".to_owned(),
        title: "Pirate Hunter".to_owned(),
        description: "Eliminate pirate threats to secure trade routes.".to_owned(),
        level: 6,
        prerequisites: prereqs,
        is_repeatable: true,
        objectives,
        rewards,
    };
    proof {
        reveal_strlit("first_steps");
        reveal_strlit("crafting_basics");
        reveal_strlit("market_trader");
        reveal_strlit("iron_miner");
        reveal_strlit("crystal_collector");
        reveal_strlit("component_crafter");
        reveal_strlit("weapon_smith");
        reveal_strlit("pirate_hunter");
        assert(("first_steps"@).len() == 11);
        assert(("crafting_basics"@).len() == 15);
        assert(("market_trader"@).len() == 13);
        assert(("iron_miner"@).len() == 10);
        assert(("crystal_collector"@).len() == 17);
        assert(("component_crafter"@).len() == 17);
        assert(("weapon_smith"@).len() == 12);
        assert(("pirate_hunter"@).len() == 13);
        assert(("first_steps"@)[0] == 'f');
        assert(("crafting_basics"@)[0] == 'c');
        assert(("market_trader"@)[0] == 'm');
        assert(("iron_miner"@)[0] == 'i');
        assert(("crystal_collector"@)[0] == 'c');
        assert(("component_crafter"@)[0] == 'c');
        assert(("weapon_smith"@)[0] == 'w');
        assert(("pirate_hunter"@)[0] == 'p');
    }
    q
}

fn quest_belt_cleaner() -> (r: Quest)
    ensures
        r.id@ == "belt_cleaner"@,
        quest_entry_wf(r),
{
    let mut prereqs: Vec<String> = Vec::new();
    prereqs.push("pirate_hunter".to_owned());
    let mut objectives: Vec<QuestObjective> = Vec::new();
    objectives.push(make_objective(QuestObjectiveType::Kill, "belt_any", 10));
    let mut rewards: Vec<QuestReward> = Vec::new();
    rewards.push(make_reward("omen", 600));
    rewards.push(make_reward("xp", 1000));
    let q = Quest {
        id: "belt_cleaner".to_owned(),
        title: "Belt Cleaner".to_owned(),
        description: "Clear out dangerous creatures from the asteroid belt.".to_owned(),
        level: 10,
        prerequisites: prereqs,
        is_repeatable: true,
        objectives,
        rewards,
    };
    proof {
        reveal_strlit("first_steps");
        reveal_strlit("crafting_basics");
        reveal_strlit("market_trader");
        reveal_strlit("iron_miner");
        reveal_strlit("crystal_collector");
        reveal_strlit("component_crafter");
        reveal_strlit("weapon_smith");
        reveal_strlit("pirate_hunter");
        reveal_strlit("belt_cleaner");
        assert(("first_steps"@).len() == 11);
        assert(("crafting_basics"@).len() == 15);
        assert(("market_trader"@).len() == 13);
        assert(("iron_miner"@).len() == 10);
        assert(("crystal_collector"@).len() == 17);
        assert(("component_crafter"@).len() == 17);
        assert(("weapon_smith"@).len() == 12);
        assert(("pirate_hunter"@).len() == 13);
        assert(("belt_cleaner"@).len() == 12);
        assert(("first_steps"@)[0] == 'f');
        assert(("crafting_basics"@)[0] == 'c');
        assert(("market_trader"@)[0] == 'm');
        assert(("iron_miner"@)[0] == 'i');
        assert(("crystal_collector"@)[0] == 'c');
        assert(("component_crafter"@)[0] == 'c');
        assert(("weapon_smith"@)[0] == 'w');
        assert(("pirate_hunter"@)[0] == 'p');
        assert(("belt_cleaner"@)[0] == 'b');
    }
    q
}

fn quest_system_explorer() -> (r: Quest)
    ensures
        r.id@ == "system_explorer"@,
        quest_entry_wf(r),
{
    let mut prereqs: Vec<String> = Vec::new();
    prereqs.push("first_steps".to_owned());
    let mut objectives: Vec<QuestObjective> = Vec::new();
    objectives.push(make_objective(QuestObjectiveType::Visit, "proxima_1", 1));
    objectives.push(make_objective(QuestObjectiveType::Visit, "belt_1", 1));
    let mut rewards: Vec<QuestReward> = Vec::new();
    rewards.push(make_reward("omen", 300));
    rewards.push(make_reward("xp", 400));
    let q = Quest {
        id: "system_explorer".to_owned(),
        title: "System Explorer".to_owned(),
        description: "Visit different zones to map the star system.".to_owned(),
        level: 3,
        prerequisites: prereqs,
        is_repeatable: false,
        objectives,
        rewards,
    };
    proof {
        reveal_strlit("first_steps");
        reveal_strlit("crafting_basics");
        reveal_strlit("market_trader");
        reveal_strlit("iron_miner");
        reveal_strlit("crystal_collector");
        reveal_strlit("component_crafter");
        reveal_strlit("weapon_smith");
        reveal_strlit("pirate_hunter");
        reveal_strlit("belt_cleaner");
        reveal_strlit("system_explorer");
        assert(("first_steps"@).len() == 11);
        assert(("crafting_basics"@).len() == 15);
        assert(("market_trader"@).len() == 13);
        assert(("iron_miner"@).len() == 10);
        assert(("crystal_collector"@).len() == 17);
        assert(("component_crafter"@).len() == 17);
        assert(("weapon_smith"@).len() == 12);
        assert(("pirate_hunter"@).len() == 13);
        assert(("belt_cleaner"@).len() == 12);
        assert(("system_explorer"@).len() == 15);
        assert(("first_steps"@)[0] == 'f');
        assert(("crafting_basics"@)[0] == 'c');
        assert(("market_trader"@)[0] == 'm');
        assert(("iron_miner"@)[0] == 'i');
        assert(("crystal_collector"@)[0] == 'c');
        assert(("component_crafter"@)[0] == 'c');
        assert(("weapon_smith"@)[0] == 'w');
        assert(("pirate_hunter"@)[0] == 'p');
        assert(("belt_cleaner"@)[0] == 'b');
        assert(("system_explorer"@)[0] == 's');
    }
    q
}

fn quest_master_crafter() -> (r: Quest)
    ensures
        r.id@ == "master_crafter"@,
        quest_entry_wf(r),
{
    let mut prereqs: Vec<String> = Vec::new();
    prereqs.push("weapon_smith".to_owned());
    let mut objectives: Vec<QuestObjective> = Vec::new();
    objectives.push(make_objective(QuestObjectiveType::Unique, "unique_items", 5));
    let mut rewards: Vec<QuestReward> = Vec::new();
    rewards.push(make_reward("omen", 1000));
    rewards.push(make_reward("xp", 1500));
    let q = Quest {
        id: "master_crafter".to_owned(),
        title: "Master Crafter".to_owned(),
        description: "Demonstrate mastery by crafting unique items.".to_owned(),
        level: 12,
        prerequisites: prereqs,
        is_repeatable: false,
        objectives,
        rewards,
    };
    proof {
        reveal_strlit("first_steps");
        reveal_strlit("crafting_basics");
        reveal_strlit("market_trader");
        reveal_strlit("iron_miner");
        reveal_strlit("crystal_collector");
        reveal_strlit("component_crafter");
        reveal_strlit("weapon_smith");
        reveal_strlit("pirate_hunter");
        reveal_strlit("belt_cleaner");
        reveal_strlit("system_explorer");
        reveal_strlit("master_crafter");
        assert(("first_steps"@).len() == 11);
        assert(("crafting_basics"@).len() == 15);
        assert(("market_trader"@).len() == 13);
        assert(("iron_miner"@).len() == 10);
        assert(("crystal_collector"@).len() == 17);
        assert(("component_crafter"@).len() == 17);
        assert(("weapon_smith"@).len() == 12);
        assert(("pirate_hunter"@).len() == 13);
        assert(("belt_cleaner"@).len() == 12);
        assert(("system_explorer"@).len() == 15);
        assert(("master_crafter"@).len() == 14);
        assert(("first_steps"@)[0] == 'f');
        assert(("crafting_basics"@)[0] == 'c');
        assert(("market_trader"@)[0] == 'm');
        assert(("iron_miner"@)[0] == 'i');
        assert(("crystal_collector"@)[0] == 'c');
        assert(("component_crafter"@)[0] == 'c');
        assert(("weapon_smith"@)[0] == 'w');
        assert(("pirate_hunter"@)[0] == 'p');
        assert(("belt_cleaner"@)[0] == 'b');
        assert(("system_explorer"@)[0] == 's');
        assert(("master_crafter"@)[0] == 'm');
    }
    q
}

fn quest_fleet_commander() -> (r: Quest)
    ensures
        r.id@ == "fleet_commander"@,
        quest_entry_wf(r),
{
    let mut prereqs: Vec<String> = Vec::new();
    prereqs.push("master_crafter".to_owned());
    prereqs.push("belt_cleaner".to_owned());
    let mut objectives: Vec<QuestObjective> = Vec::new();
    objectives.push(make_objective(QuestObjectiveType::Kill, "any", 50));
    objectives.push(make_objective(QuestObjectiveType::Mine, "any", 500));
    objectives.push(make_objective(QuestObjectiveType::Craft, "any", 100));
    let mut rewards: Vec<QuestReward> = Vec::new();
    rewards.push(make_reward("omen", 2000));
    rewards.push(make_reward("xp", 3000));
    let q = Quest {
        id: "fleet_commander".to_owned(),
        title: "Fleet Commander".to_owned(),
        description: "Prove your leadership by completing major objectives.".to_owned(),
        level: 15,
        prerequisites: prereqs,
        is_repeatable: false,
        objectives,
        rewards,
    };
    proof {
        reveal_strlit("first_steps");
        reveal_strlit("crafting_basics");
        reveal_strlit("market_trader");
        reveal_strlit("iron_miner");
        reveal_strlit("crystal_collector");
        reveal_strlit("component_crafter");
        reveal_strlit("weapon_smith");
        reveal_strlit("pirate_hunter");
        reveal_strlit("belt_cleaner");
        reveal_strlit("system_explorer");
        reveal_strlit("master_crafter");
        reveal_strlit("fleet_commander");
        assert(("first_steps"@).len() == 11);
        assert(("crafting_basics"@).len() == 15);
        assert(("market_trader"@).len() == 13);
        assert(("iron_miner"@).len() == 10);
        assert(("crystal_collector"@).len() == 17);
        assert(("component_crafter"@).len() == 17);
        assert(("weapon_smith"@).len() == 12);
        assert(("pirate_hunter"@).len() == 13);
        assert(("belt_cleaner"@).len() == 12);
        assert(("system_explorer"@).len() == 15);
        assert(("master_crafter"@).len() == 14);
        assert(("fleet_commander"@).len() == 15);
        assert(("first_steps"@)[0] == 'f');
        assert(("crafting_basics"@)[0] == 'c');
        assert(("market_trader"@)[0] == 'm');
        assert(("iron_miner"@)[0] == 'i');
        assert(("crystal_collector"@)[0] == 'c');
        assert(("component_crafter"@)[0] == 'c');
        assert(("weapon_smith"@)[0] == 'w');
        assert(("pirate_hunter"@)[0] == 'p');
        assert(("belt_cleaner"@)[0] == 'b');
        assert(("system_explorer"@)[0] == 's');
        assert(("master_crafter"@)[0] == 'm');
        assert(("fleet_commander"@)[0] == 'f');
    }
    q
}

fn quest_daily_mining() -> (r: Quest)
    ensures
        r.id@ == "daily_mining"@,
        quest_entry_wf(r),
{
    let mut prereqs: Vec<String> = Vec::new();
    let mut objectives: Vec<QuestObjective> = Vec::new();
    objectives.push(make_objective(QuestObjectiveType::Mine, "any", 100));
    let mut rewards: Vec<QuestReward> = Vec::new();
    rewards.push(make_reward("omen", 200));
    rewards.push(make_reward("xp", 300));
    let q = Quest {
        id: "daily_mining".to_owned(),
        title: "Daily Mining Quota".to_owned(),
        description: "Meet the daily mining quota for the colony.".to_owned(),
        level: 1,
        prerequisites: prereqs,
        is_repeatable: true,
        objectives,
        rewards,
    };
    proof {
        reveal_strlit("first_steps");
        reveal_strlit("crafting_basics");
        reveal_strlit("market_trader");
        reveal_strlit("iron_miner");
        reveal_strlit("crystal_collector");
        reveal_strlit("component_crafter");
        reveal_strlit("weapon_smith");
        reveal_strlit("pirate_hunter");
        reveal_strlit("belt_cleaner");
        reveal_strlit("system_explorer");
        reveal_strlit("master_crafter");
        reveal_strlit("fleet_commander");
        reveal_strlit("daily_mining");
        assert(("first_steps"@).len() == 11);
        assert(("crafting_basics"@).len() == 15);
        assert(("market_trader"@).len() == 13);
        assert(("iron_miner"@).len() == 10);
        assert(("crystal_collector"@).len() == 17);
        assert(("component_crafter"@).len() == 17);
        assert(("weapon_smith"@).len() == 12);
        assert(("pirate_hunter"@).len() == 13);
        assert(("belt_cleaner"@).len() == 12);
        assert(("system_explorer"@).len() == 15);
        assert(("master_crafter"@).len() == 14);
        assert(("fleet_commander"@).len() == 15);
        assert(("daily_mining"@).len() == 12);
        assert(("first_steps"@)[0] == 'f');
        assert(("crafting_basics"@)[0] == 'c');
        assert(("market_trader"@)[0] == 'm');
        assert(("iron_miner"@)[0] == 'i');
        assert(("crystal_collector"@)[0] == 'c');
        assert(("component_crafter"@)[0] == 'c');
        assert(("weapon_smith"@)[0] == 'w');
        assert(("pirate_hunter"@)[0] == 'p');
        assert(("belt_cleaner"@)[0] == 'b');
        assert(("system_explorer"@)[0] == 's');
        assert(("master_crafter"@)[0] == 'm');
        assert(("fleet_commander"@)[0] == 'f');
        assert(("daily_mining"@)[0] == 'd');
    }
    q
}

fn quest_supply_run() -> (r: Quest)
    ensures
        r.id@ == "supply_run"@,
        quest_entry_wf(r),
{
    let mut prereqs: Vec<String> = Vec::new();
    let mut objectives: Vec<QuestObjective> = Vec::new();
    objectives.push(make_objective(QuestObjectiveType::Craft, "supply", 20));
    let mut rewards: Vec<QuestReward> = Vec::new();
    rewards.push(make_reward("omen", 350));
    rewards.push(make_reward("xp", 500));
    let q = Quest {
        id: "supply_run".to_owned(),
        title: "Supply Run".to_owned(),
        description: "Craft and deliver essential supplies.".to_owned(),
        level: 5,
        prerequisites: prereqs,
        is_repeatable: true,
        objectives,
        rewards,
    };
    proof {
        reveal_strlit("first_steps");
        reveal_strlit("crafting_basics");
        reveal_strlit("market_trader");
        reveal_strlit("iron_miner");
        reveal_strlit("crystal_collector");
        reveal_strlit("component_crafter");
        reveal_strlit("weapon_smith");
        reveal_strlit("pirate_hunter");
        reveal_strlit("belt_cleaner");
        reveal_strlit("system_explorer");
        reveal_strlit("master_crafter");
        reveal_strlit("fleet_commander");
        reveal_strlit("daily_mining");
        reveal_strlit("supply_run");
        assert(("first_steps"@).len() == 11);
        assert(("crafting_basics"@).len() == 15);
        assert(("market_trader"@).len() == 13);
        assert(("iron_miner"@).len() == 10);
        assert(("crystal_collector"@).len() == 17);
        assert(("component_crafter"@).len() == 17);
        assert(("weapon_smith"@).len() == 12);
        assert(("pirate_hunter"@).len() == 13);
        assert(("belt_cleaner"@).len() == 12);
        assert(("system_explorer"@).len() == 15);
        assert(("master_crafter"@).len() == 14);
        assert(("fleet_commander"@).len() == 15);
        assert(("daily_mining"@).len() == 12);
        assert(("supply_run"@).len() == 10);
        assert(("first_steps"@)[0] == 'f');
        assert(("crafting_basics"@)[0] == 'c');
        assert(("market_trader"@)[0] == 'm');
        assert(("iron_miner"@)[0] == 'i');
        assert(("crystal_collector"@)[0] == 'c');
        assert(("component_crafter"@)[0] == 'c');
        assert(("weapon_smith"@)[0] == 'w');
        assert(("pirate_hunter"@)[0] == 'p');
        assert(("belt_cleaner"@)[0] == 'b');
        assert(("system_explorer"@)[0] == 's');
        assert(("master_crafter"@)[0] == 'm');
        assert(("fleet_commander"@)[0] == 'f');
        assert(("daily_mining"@)[0] == 'd');
        assert(("supply_run"@)[0] == 's');
    }
    q
}

/// The full quest table, in a fixed order.
pub fn all_quests() -> (r: Vec<Quest>)
    ensures
        r@.len() == 14,
        forall|i: int| 0 <= i < r@.len() ==> quest_entry_wf(#[trigger] r@[i]),
        r@[0].id@ == "first_steps"@,
        r@[1].id@ == "crafting_basics"@,
        r@[2].id@ == "market_trader"@,
        r@[3].id@ == "iron_miner"@,
        r@[4].id@ == "crystal_collector"@,
        r@[5].id@ == "component_crafter"@,
        r@[6].id@ == "weapon_smith"@,
        r@[7].id@ == "pirate_hunter"@,
        r@[8].id@ == "belt_cleaner"@,
        r@[9].id@ == "system_explorer"@,
        r@[10].id@ == "master_crafter"@,
        r@[11].id@ == "fleet_commander"@,
        r@[12].id@ == "daily_mining"@,
        r@[13].id@ == "supply_run"@,
{
    let mut quests: Vec<Quest> = Vec::new();
    quests.push(quest_first_steps());
    quests.push(quest_crafting_basics());
    quests.push(quest_market_trader());
    quests.push(quest_iron_miner());
    quests.push(quest_crystal_collector());
    quests.push(quest_component_crafter());
    quests.push(quest_weapon_smith());
    quests.push(quest_pirate_hunter());
    quests.push(quest_belt_cleaner());
    quests.push(quest_system_explorer());
    quests.push(quest_master_crafter());
    quests.push(quest_fleet_commander());
    quests.push(quest_daily_mining());
    quests.push(quest_supply_run());
    quests
}

/// Look a quest up by id; succeeds exactly for known ids.
pub fn get_quest_by_id(quest_id: &str) -> (r: Option<Quest>)
    ensures
        r is Some <==> quest_known(quest_id@),
        r is Some ==> r->0.id@ == quest_id@ && quest_entry_wf(r->0),
{
    let quests = all_quests();
    let n = quests.len();
    for i in 0..n
        invariant
            n == quests@.len(),
            forall|j: int| 0 <= j < i ==> (#[trigger] quests@[j]).id@ != quest_id@,
            forall|j: int| 0 <= j < quests@.len() ==> quest_entry_wf(#[trigger] quests@[j]),
    {
        if str_eq(quests[i].id.as_str(), quest_id) {
            let q = quests[i].clone();
            proof {
                assert(quest_entry_wf(quests@[i as int]));
                assert(quest_entry_wf(q)) by {
                    assert(q.id@ == quests@[i as int].id@);
                    assert forall|t: int| 0 <= t < q.prerequisites@.len() implies (
                    #[trigger] q.prerequisites@[t])@ == spec_quest_prereqs(q.id@)[t] by {
                        assert(q.prerequisites@[t] == quests@[i as int].prerequisites@[t]);
                    }
                    assert forall|t: int| 0 <= t < q.objectives@.len() implies (
                    #[trigger] q.objectives@[t]).current == 0 && q.objectives@[t].required > 0 by {
                        assert(q.objectives@[t] == quests@[i as int].objectives@[t]);
                    }
                }
            }
            return Some(q);
        }
    }
    None
}

} // verus!

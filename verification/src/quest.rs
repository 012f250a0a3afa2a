//! Quest data: objectives, rewards, the quest table, and the objective
//! matching rule.

use vstd::prelude::*;

use crate::util::str_eq;
use vstd::string::*;

verus! {

#[derive(Clone, Copy, PartialEq, Eq, Structural, Debug)]
pub enum QuestObjectiveType {
    Mine,
    Craft,
    Kill,
    Visit,
    Sell,
    Unique,
}

pub struct QuestObjective {
    pub objective_type: QuestObjectiveType,
    pub target: String,
    pub required: u32,
    pub current: u32,
}

impl Clone for QuestObjective {
    fn clone(&self) -> (r: Self)
        ensures
            r == *self,
    {
        QuestObjective {
            objective_type: self.objective_type,
            target: self.target.clone(),
            required: self.required,
            current: self.current,
        }
    }
}

pub struct QuestReward {
    pub reward_type: String,
    /// Amount, in whole XP points or whole OMEN.
    pub amount: u64,
}

impl Clone for QuestReward {
    fn clone(&self) -> (r: Self)
        ensures
            r == *self,
    {
        QuestReward { reward_type: self.reward_type.clone(), amount: self.amount }
    }
}

pub struct Quest {
    pub id: String,
    pub title: String,
    pub description: String,
    pub level: u32,
    pub prerequisites: Vec<String>,
    pub is_repeatable: bool,
    pub objectives: Vec<QuestObjective>,
    pub rewards: Vec<QuestReward>,
}

impl Clone for Quest {
    fn clone(&self) -> (r: Self)
        ensures
            r.id == self.id,
            r.title == self.title,
            r.description == self.description,
            r.level == self.level,
            r.prerequisites@ == self.prerequisites@,
            r.is_repeatable == self.is_repeatable,
            r.objectives@ == self.objectives@,
            r.rewards@ == self.rewards@,
    {
        Quest {
            id: self.id.clone(),
            title: self.title.clone(),
            description: self.description.clone(),
            level: self.level,
            prerequisites: self.prerequisites.clone(),
            is_repeatable: self.is_repeatable,
            objectives: self.objectives.clone(),
            rewards: self.rewards.clone(),
        }
    }
}

pub struct QuestProgress {
    pub quest_id: String,
    /// `"active"` or `"completed"`.
    pub status: String,
    pub objectives: Vec<QuestObjective>,
}

impl Clone for QuestProgress {
    fn clone(&self) -> (r: Self)
        ensures
            r.quest_id == self.quest_id,
            r.status == self.status,
            r.objectives@ == self.objectives@,
    {
        QuestProgress {
            quest_id: self.quest_id.clone(),
            status: self.status.clone(),
            objectives: self.objectives.clone(),
        }
    }
}

/// Whether byte sequence `p` is a prefix of `s`.
pub open spec fn bytes_prefix(s: Seq<u8>, p: Seq<u8>) -> bool {
    s.len() >= p.len() && s.subrange(0, p.len() as int) == p
}

/// Whether `s` starts with `p`, stated over the byte encodings.
pub fn str_starts_with(s: &str, p: &str) -> (r: bool)
    ensures
        r == bytes_prefix(s.spec_bytes(), p.spec_bytes()),
{
    let sb = s.as_bytes();
    let pb = p.as_bytes();
    if sb.len() < pb.len() {
        return false;
    }
    let n = pb.len();
    for i in 0..n
        invariant
            n == pb@.len(),
            n <= sb@.len(),
            sb@ == s.spec_bytes(),
            pb@ == p.spec_bytes(),
            forall|j: int| 0 <= j < i ==> sb@[j] == pb@[j],
    {
        if sb[i] != pb[i] {
            proof {
                assert(s.spec_bytes().subrange(0, n as int)[i as int] != p.spec_bytes()[i as int]);
            }
            return false;
        }
    }
    proof {
        assert(s.spec_bytes().subrange(0, n as int) =~= p.spec_bytes());
    }
    true
}

/// When an objective's target accepts an event target: an exact match, the
/// `"any"` wildcard, `"pirate_any"` for targets starting with `"pirate"`,
/// `"belt_any"` for targets starting with `"belt_"`, or `"unique_items"`
/// for any craft event.
pub open spec fn spec_objective_matches(
    obj_target: Seq<char>,
    obj_type: QuestObjectiveType,
    event_target: Seq<char>,
    event_target_bytes: Seq<u8>,
) -> bool {
    ||| obj_target == event_target
    ||| obj_target == "any"@
    ||| (obj_target == "pirate_any"@ && bytes_prefix(event_target_bytes, "pirate".spec_bytes()))
    ||| (obj_target == "belt_any"@ && bytes_prefix(event_target_bytes, "belt_".spec_bytes()))
    ||| (obj_target == "unique_items"@ && obj_type is Craft)
}

/// Whether the objective accepts the event target.
pub fn objective_matches_target(objective: &QuestObjective, event_target: &str) -> (r: bool)
    ensures
        r == spec_objective_matches(
            objective.target@,
            objective.objective_type,
            event_target@,
            event_target.spec_bytes(),
        ),
{
    let obj_target = objective.target.as_str();
    if str_eq(obj_target, event_target) {
        return true;
    }
    if str_eq(obj_target, "any") {
        return true;
    }
    if str_eq(obj_target, "pirate_any") && str_starts_with(event_target, "pirate") {
        return true;
    }
    if str_eq(obj_target, "belt_any") && str_starts_with(event_target, "belt_") {
        return true;
    }
    let is_craft = match objective.objective_type {
        QuestObjectiveType::Craft => true,
        _ => false,
    };
    if str_eq(obj_target, "unique_items") && is_craft {
        return true;
    }
    false
}

} // verus!

//! Per-player quest tracking: active quests with objective progress,
//! completed quests, and the set of crafted item types.

use vstd::prelude::*;

use crate::quest::{
    objective_matches_target, spec_objective_matches, Quest, QuestObjective, QuestProgress,
    QuestReward,
    QuestObjectiveType,
};
use crate::quest_db::{
    all_quests, get_quest_by_id, quest_entry_wf, quest_known, spec_quest_level,
    spec_quest_prereqs, spec_quest_repeatable,
};
use crate::util::str_eq;
use vstd::string::*;

verus! {

/// Whether some string in the sequence views as `k`.
pub open spec fn seq_contains_str(s: Seq<String>, k: Seq<char>) -> bool {
    exists|i: int| 0 <= i < s.len() && (#[trigger] s[i])@ == k
}

/// First progress entry with the given quest id.
pub open spec fn find_progress(s: Seq<QuestProgress>, id: Seq<char>) -> Option<QuestProgress>
    decreases s.len(),
{
    if s.len() == 0 {
        None
    } else if s[0].quest_id@ == id {
        Some(s[0])
    } else {
        find_progress(s.subrange(1, s.len() as int), id)
    }
}

proof fn lemma_find_progress_at(s: Seq<QuestProgress>, i: int, id: Seq<char>)
    requires
        0 <= i < s.len(),
        s[i].quest_id@ == id,
        forall|j: int| 0 <= j < i ==> (#[trigger] s[j]).quest_id@ != id,
    ensures
        find_progress(s, id) == Some(s[i]),
    decreases i,
{
    if i > 0 {
        lemma_find_progress_at(s.subrange(1, s.len() as int), i - 1, id);
    }
}

proof fn lemma_find_progress_absent(s: Seq<QuestProgress>, id: Seq<char>)
    requires
        forall|j: int| 0 <= j < s.len() ==> (#[trigger] s[j]).quest_id@ != id,
    ensures
        find_progress(s, id) is None,
    decreases s.len(),
{
    if s.len() > 0 {
        lemma_find_progress_absent(s.subrange(1, s.len() as int), id);
    }
}

proof fn lemma_find_progress_remove_other(s: Seq<QuestProgress>, i: int, id: Seq<char>)
    requires
        0 <= i < s.len(),
        s[i].quest_id@ != id,
    ensures
        find_progress(s.remove(i), id) == find_progress(s, id),
    decreases s.len(),
{
    let t = s.remove(i);
    if i == 0 {
        assert(t =~= s.subrange(1, s.len() as int));
    } else {
        assert(t[0] == s[0]);
        assert(t.subrange(1, t.len() as int) =~= s.subrange(1, s.len() as int).remove(i - 1));
        lemma_find_progress_remove_other(s.subrange(1, s.len() as int), i - 1, id);
    }
}

/// Whether some active entry carries the given quest id.
pub open spec fn progress_contains(s: Seq<QuestProgress>, id: Seq<char>) -> bool {
    exists|i: int| 0 <= i < s.len() && (#[trigger] s[i]).quest_id@ == id
}

pub struct QuestTracker {
    pub player_id: u32,
    /// Active quests; quest ids are pairwise distinct.
    pub active_quests: Vec<QuestProgress>,
    /// Ids of quests completed at least once; pairwise distinct.
    pub completed_quests: Vec<String>,
    /// Item types the player has crafted; pairwise distinct.
    pub crafted_item_types: Vec<String>,
}

impl QuestTracker {
    /// Active ids, completed ids and crafted types are each pairwise
    /// distinct, and every active objective's progress is capped by its
    /// requirement.
    pub open spec fn wf(&self) -> bool {
        &&& forall|i: int, j: int|
            0 <= i < j < self.active_quests@.len() ==> (
            #[trigger] self.active_quests@[i]).quest_id@ != (
            #[trigger] self.active_quests@[j]).quest_id@
        &&& forall|i: int, j: int|
            0 <= i < j < self.completed_quests@.len() ==> (
            #[trigger] self.completed_quests@[i])@ != (#[trigger] self.completed_quests@[j])@
        &&& forall|i: int, j: int|
            0 <= i < j < self.crafted_item_types@.len() ==> (
            #[trigger] self.crafted_item_types@[i])@ != (#[trigger] self.crafted_item_types@[j])@
    }

    pub fn new(player_id: u32) -> (r: Self)
        ensures
            r.wf(),
            r.player_id == player_id,
            r.active_quests@.len() == 0,
            r.completed_quests@.len() == 0,
            r.crafted_item_types@.len() == 0,
    {
        QuestTracker {
            player_id,
            active_quests: Vec::new(),
            completed_quests: Vec::new(),
            crafted_item_types: Vec::new(),
        }
    }

    /// Index of the active entry for a quest id, if any.
    fn find_active(&self, quest_id: &str) -> (r: Option<usize>)
        ensures
            match r {
                Some(i) => {
                    &&& i < self.active_quests@.len()
                    &&& self.active_quests@[i as int].quest_id@ == quest_id@
                    &&& forall|j: int|
                        0 <= j < i ==> (#[trigger] self.active_quests@[j]).quest_id@ != quest_id@
                },
                None => forall|j: int|
                    0 <= j < self.active_quests@.len() ==> (
                    #[trigger] self.active_quests@[j]).quest_id@ != quest_id@,
            },
    {
        let n = self.active_quests.len();
        for i in 0..n
            invariant
                n == self.active_quests@.len(),
                forall|j: int|
                    0 <= j < i ==> (#[trigger] self.active_quests@[j]).quest_id@ != quest_id@,
        {
            if str_eq(self.active_quests[i].quest_id.as_str(), quest_id) {
                return Some(i);
            }
        }
        None
    }

    /// Whether the quest is currently active.
    pub fn is_quest_active(&self, quest_id: &str) -> (r: bool)
        ensures
            r == progress_contains(self.active_quests@, quest_id@),
    {
        self.find_active(quest_id).is_some()
    }

    /// Whether the quest has been completed at least once.
    pub fn is_quest_completed(&self, quest_id: &str) -> (r: bool)
        ensures
            r == seq_contains_str(self.completed_quests@, quest_id@),
    {
        contains_string(&self.completed_quests, quest_id)
    }

    /// Clones of all active quest progress entries.
    pub fn get_active_quests(&self) -> (r: Vec<QuestProgress>)
        ensures
            r@.len() == self.active_quests@.len(),
            forall|i: int|
                0 <= i < r@.len() ==> {
                    &&& (#[trigger] r@[i]).quest_id == self.active_quests@[i].quest_id
                    &&& r@[i].status == self.active_quests@[i].status
                    &&& r@[i].objectives@ == self.active_quests@[i].objectives@
                },
    {
        let mut r: Vec<QuestProgress> = Vec::new();
        let n = self.active_quests.len();
        for i in 0..n
            invariant
                n == self.active_quests@.len(),
                r@.len() == i,
                forall|t: int|
                    0 <= t < i ==> {
                        &&& (#[trigger] r@[t]).quest_id == self.active_quests@[t].quest_id
                        &&& r@[t].status == self.active_quests@[t].status
                        &&& r@[t].objectives@ == self.active_quests@[t].objectives@
                    },
        {
            r.push(self.active_quests[i].clone());
        }
        r
    }

    /// The active progress entry for one quest, if the quest is active.
    pub fn get_active_quest(&self, quest_id: &str) -> (r: Option<QuestProgress>)
        ensures
            r is Some <==> progress_contains(self.active_quests@, quest_id@),
            r is Some ==> {
                let p = find_progress(self.active_quests@, quest_id@)->0;
                &&& r->0.quest_id == p.quest_id
                &&& r->0.status == p.status
                &&& r->0.objectives@ == p.objectives@
            },
    {
        match self.find_active(quest_id) {
            Some(i) => {
                proof {
                    lemma_find_progress_at(self.active_quests@, i as int, quest_id@);
                }
                Some(self.active_quests[i].clone())
            },
            None => None,
        }
    }

    /// Clones of the completed quest ids.
    pub fn get_completed_quests(&self) -> (r: Vec<String>)
        ensures
            r@.len() == self.completed_quests@.len(),
            forall|i: int| 0 <= i < r@.len() ==> #[trigger] r@[i] == self.completed_quests@[i],
    {
        clone_strings(&self.completed_quests)
    }

    /// Accept a quest.  Succeeds exactly when the quest exists, is not
    /// already active, meets the level requirement, is repeatable or not
    /// yet completed, and has all prerequisites completed; on success a
    /// fresh progress entry with zeroed objectives becomes active.
    pub fn accept_quest(&mut self, quest_id: &str, player_level: u32) -> (r: Option<String>)
        requires
            old(self).wf(),
        ensures
            final(self).wf(),
            ({
                let ok = {
                    &&& !progress_contains(old(self).active_quests@, quest_id@)
                    &&& quest_known(quest_id@)
                    &&& spec_quest_level(quest_id@) <= player_level
                    &&& (spec_quest_repeatable(quest_id@) || !seq_contains_str(
                        old(self).completed_quests@,
                        quest_id@,
                    ))
                    &&& (forall|i: int|
                        0 <= i < spec_quest_prereqs(quest_id@).len() ==> seq_contains_str(
                            old(self).completed_quests@,
                            #[trigger] spec_quest_prereqs(quest_id@)[i],
                        ))
                };
                &&& (r is None <==> ok)
                &&& (r is Some ==> *final(self) == *old(self))
                &&& (r is None ==> {
                    &&& final(self).active_quests@.len() == old(self).active_quests@.len() + 1
                    &&& final(self).active_quests@[old(self).active_quests@.len() as int].quest_id@
                        == quest_id@
                    &&& final(self).active_quests@[old(self).active_quests@.len() as int].status@
                        == "active"@
                    &&& (forall|j: int|
                        0 <= j < old(self).active_quests@.len()
                            ==> #[trigger] final(self).active_quests@[j] == old(
                            self,
                        ).active_quests@[j])
                    &&& (forall|j: int|
                        0 <= j < final(self).active_quests@[old(
                            self,
                        ).active_quests@.len() as int].objectives@.len() ==> (
                        #[trigger] final(self).active_quests@[old(
                            self,
                        ).active_quests@.len() as int].objectives@[j]).current == 0)
                    &&& final(self).completed_quests@ == old(self).completed_quests@
                    &&& final(self).crafted_item_types@ == old(self).crafted_item_types@
                    &&& final(self).player_id == old(self).player_id
                })
            }),
    {
        if self.find_active(quest_id).is_some() {
            return Some("Quest is already active".to_owned());
        }

        let quest = match get_quest_by_id(quest_id) {
            Some(q) => q,
            None => {
                return Some("Unknown quest".to_owned());
            },
        };

        if quest.level > player_level {
            let mut msg = "Requires level ".to_owned();
            let digits = crate::util::u32_to_string(quest.level);
            msg.append(digits.as_str());
            return Some(msg);
        }

        if !quest.is_repeatable && contains_string(&self.completed_quests, quest_id) {
            return Some("Quest already completed".to_owned());
        }

        let np = quest.prerequisites.len();
        for i in 0..np
            invariant
                *self == *old(self),
                old(self).wf(),
                np == quest.prerequisites@.len(),
                quest_entry_wf(quest),
                quest.id@ == quest_id@,
                forall|j: int|
                    0 <= j < i ==> seq_contains_str(
                        self.completed_quests@,
                        #[trigger] spec_quest_prereqs(quest_id@)[j],
                    ),
        {
            if !contains_string(&self.completed_quests, self.active_quests_prereq(&quest, i)) {
                let mut msg = "Prerequisite not met: ".to_owned();
                msg.append(quest.prerequisites[i].as_str());
                return Some(msg);
            }
        }

        // Fresh progress with zeroed objectives.
        let mut objectives: Vec<QuestObjective> = Vec::new();
        let no = quest.objectives.len();
        for i in 0..no
            invariant
                no == quest.objectives@.len(),
                objectives@.len() == i,
                forall|j: int| 0 <= j < i ==> (#[trigger] objectives@[j]).current == 0,
        {
            let src = &quest.objectives[i];
            objectives.push(
                QuestObjective {
                    objective_type: src.objective_type,
                    target: src.target.clone(),
                    required: src.required,
                    current: 0,
                },
            );
        }

        let progress = QuestProgress {
            quest_id: quest_id.to_owned(),
            status: "active".to_owned(),
            objectives,
        };
        let ghost before = self.active_quests@;
        self.active_quests.push(progress);
        proof {
            assert forall|i: int, j: int|
                0 <= i < j < self.active_quests@.len() implies (
            #[trigger] self.active_quests@[i]).quest_id@ != (
            #[trigger] self.active_quests@[j]).quest_id@ by {
                if j < before.len() {
                    assert(self.active_quests@[i] == before[i]);
                    assert(self.active_quests@[j] == before[j]);
                } else {
                    assert(self.active_quests@[i] == before[i]);
                    assert(self.active_quests@[j].quest_id@ == quest_id@);
                    assert(before[i].quest_id@ != quest_id@);
                }
            }
        }
        None
    }

    // Borrow helper: the i-th prerequisite as a string slice.
    fn active_quests_prereq<'a>(&self, quest: &'a Quest, i: usize) -> (r: &'a str)
        requires
            i < quest.prerequisites@.len(),
        ensures
            r@ == quest.prerequisites@[i as int]@,
    {
        quest.prerequisites[i].as_str()
    }

    /// Abandon an active quest; returns whether it was active.
    pub fn abandon_quest(&mut self, quest_id: &str) -> (r: bool)
        requires
            old(self).wf(),
        ensures
            final(self).wf(),
            r == progress_contains(old(self).active_quests@, quest_id@),
            !r ==> *final(self) == *old(self),
            r ==> {
                &&& final(self).active_quests@.len() == old(self).active_quests@.len() - 1
                &&& !progress_contains(final(self).active_quests@, quest_id@)
                &&& (forall|k: Seq<char>|
                    k != quest_id@ ==> find_progress(final(self).active_quests@, k)
                        == #[trigger] find_progress(old(self).active_quests@, k))
                &&& final(self).completed_quests@ == old(self).completed_quests@
                &&& final(self).crafted_item_types@ == old(self).crafted_item_types@
                &&& final(self).player_id == old(self).player_id
            },
    {
        match self.find_active(quest_id) {
            Some(i) => {
                let ghost olds = self.active_quests@;
                proof {
                    olds.remove_ensures(i as int);
                }
                self.active_quests.remove(i);
                proof {
                    assert forall|j: int|
                        0 <= j < self.active_quests@.len() implies (
                    #[trigger] self.active_quests@[j]).quest_id@ != quest_id@ by {
                        if j < i {
                            assert(self.active_quests@[j] == olds[j]);
                        } else {
                            assert(self.active_quests@[j] == olds[j + 1]);
                        }
                    }
                    assert forall|k: Seq<char>| k != quest_id@ implies find_progress(
                        self.active_quests@,
                        k,
                    ) == #[trigger] find_progress(olds, k) by {
                        lemma_find_progress_remove_other(olds, i as int, k);
                    }
                }
                true
            },
            None => false,
        }
    }
}

/// Whether an objective is advanced by an event of the given type and
/// target: it is unsaturated, of the event's type, and its target accepts
/// the event target.
/// Some objective of the quest matches the event and still has room.
pub open spec fn spec_quest_hit(
    p: QuestProgress,
    ty: QuestObjectiveType,
    target: Seq<char>,
    tb: Seq<u8>,
) -> bool {
    exists|j: int|
        0 <= j < p.objectives@.len() && spec_objective_hit(#[trigger] p.objectives@[j], ty, target, tb)
}

/// Some listed quest carries this id and was hit by the event.
pub open spec fn spec_reported_quest(
    quests: Seq<QuestProgress>,
    id: Seq<char>,
    ty: QuestObjectiveType,
    target: Seq<char>,
    tb: Seq<u8>,
) -> bool {
    exists|q: int|
        0 <= q < quests.len() && (#[trigger] quests[q]).quest_id@ == id && spec_quest_hit(
            quests[q],
            ty,
            target,
            tb,
        )
}

pub open spec fn spec_objective_hit(
    ob: QuestObjective,
    ty: QuestObjectiveType,
    target: Seq<char>,
    target_bytes: Seq<u8>,
) -> bool {
    &&& ob.current < ob.required
    &&& ob.objective_type == ty
    &&& spec_objective_matches(ob.target@, ob.objective_type, target, target_bytes)
}

/// The objective after an event advanced it: progress counts distinct
/// crafted types for a `unique_items` target, otherwise it grows by the
/// event amount; both are clamped at the requirement.
pub open spec fn spec_objective_after(
    ob: QuestObjective,
    amount: u32,
    crafted_count: nat,
) -> QuestObjective {
    QuestObjective {
        current: if ob.target@ == "unique_items"@ {
            if crafted_count >= ob.required {
                ob.required
            } else {
                crafted_count as u32
            }
        } else {
            if ob.current + amount >= ob.required {
                ob.required
            } else {
                (ob.current + amount) as u32
            }
        },
        ..ob
    }
}

/// How one progress entry changes under an event: ids and statuses stay,
/// and each objective advances exactly where it is hit.
pub open spec fn spec_progress_after(
    po: QuestProgress,
    pn: QuestProgress,
    ty: QuestObjectiveType,
    target: Seq<char>,
    target_bytes: Seq<u8>,
    amount: u32,
    crafted_count: nat,
) -> bool {
    &&& pn.quest_id == po.quest_id
    &&& pn.status == po.status
    &&& pn.objectives@.len() == po.objectives@.len()
    &&& forall|j: int|
        0 <= j < po.objectives@.len() ==> #[trigger] pn.objectives@[j] == (if spec_objective_hit(
            po.objectives@[j],
            ty,
            target,
            target_bytes,
        ) {
            spec_objective_after(po.objectives@[j], amount, crafted_count)
        } else {
            po.objectives@[j]
        })
}

/// Advance all matching objectives of one progress entry; returns whether
/// anything changed.
fn update_progress_objectives(
    p: &mut QuestProgress,
    objective_type: QuestObjectiveType,
    target: &str,
    amount: u32,
    crafted_count: u64,
) -> (changed: bool)
    ensures
        spec_progress_after(
            *old(p),
            *final(p),
            objective_type,
            target@,
            target.spec_bytes(),
            amount,
            crafted_count as nat,
        ),
        changed == exists|j: int|
            0 <= j < old(p).objectives@.len() && spec_objective_hit(
                #[trigger] old(p).objectives@[j],
                objective_type,
                target@,
                target.spec_bytes(),
            ),
{
    let mut changed = false;
    let n = p.objectives.len();
    for j in 0..n
        invariant
            n == p.objectives@.len(),
            n == old(p).objectives@.len(),
            p.quest_id == old(p).quest_id,
            p.status == old(p).status,
            forall|t: int|
                0 <= t < j ==> #[trigger] p.objectives@[t] == (if spec_objective_hit(
                    old(p).objectives@[t],
                    objective_type,
                    target@,
                    target.spec_bytes(),
                ) {
                    spec_objective_after(old(p).objectives@[t], amount, crafted_count as nat)
                } else {
                    old(p).objectives@[t]
                }),
            forall|t: int| j <= t < n ==> #[trigger] p.objectives@[t] == old(p).objectives@[t],
            changed == exists|t: int|
                0 <= t < j && spec_objective_hit(
                    #[trigger] old(p).objectives@[t],
                    objective_type,
                    target@,
                    target.spec_bytes(),
                ),
    {
        let ob = &p.objectives[j];
        let unsaturated = ob.current < ob.required;
        let same_type = objective_type_eq(ob.objective_type, objective_type);
        if unsaturated && same_type && objective_matches_target(ob, target) {
            let is_unique = str_eq(ob.target.as_str(), "unique_items");
            let required = ob.required;
            let current = ob.current;
            let new_current: u32 = if is_unique {
                if crafted_count >= required as u64 {
                    required
                } else {
                    crafted_count as u32
                }
            } else {
                if current as u64 + amount as u64 >= required as u64 {
                    required
                } else {
                    current + amount
                }
            };
            let updated = QuestObjective {
                objective_type: p.objectives[j].objective_type,
                target: p.objectives[j].target.clone(),
                required: p.objectives[j].required,
                current: new_current,
            };
            p.objectives[j] = updated;
            changed = true;
        }
    }
    changed
}

/// Whether two objective types are the same.
fn objective_type_eq(a: QuestObjectiveType, b: QuestObjectiveType) -> (r: bool)
    ensures
        r == (a == b),
{
    a == b
}

impl QuestTracker {
    /// Record a world event against every active quest.  A craft event
    /// also records the crafted type.  Returns the ids of the quests whose
    /// progress changed.
    pub fn update_objective(
        &mut self,
        objective_type: QuestObjectiveType,
        target: &str,
        amount: u32,
    ) -> (updated: Vec<String>)
        requires
            old(self).wf(),
        ensures
            final(self).wf(),
            final(self).player_id == old(self).player_id,
            final(self).completed_quests@ == old(self).completed_quests@,
            // A craft event records the crafted type once.
            ({
                let crafted = final(self).crafted_item_types@;
                let before = old(self).crafted_item_types@;
                if objective_type is Craft && !seq_contains_str(before, target@) {
                    crafted.len() == before.len() + 1 && crafted[before.len() as int]@ == target@
                        && (forall|i: int| 0 <= i < before.len() ==> crafted[i] == before[i])
                } else {
                    crafted == before
                }
            }),
            // Every active quest's objectives advance exactly where hit.
            final(self).active_quests@.len() == old(self).active_quests@.len(),
            forall|q: int|
                0 <= q < old(self).active_quests@.len() ==> spec_progress_after(
                    #[trigger] old(self).active_quests@[q],
                    final(self).active_quests@[q],
                    objective_type,
                    target@,
                    target.spec_bytes(),
                    amount,
                    final(self).crafted_item_types@.len() as nat,
                ),
            // Each reported id names an active quest.
            forall|k: int|
                0 <= k < updated@.len() ==> progress_contains(
                    old(self).active_quests@,
                    (#[trigger] updated@[k])@,
                ),
            // Only a quest with a hit objective is reported.
            forall|k: int|
                0 <= k < updated@.len() ==> spec_reported_quest(
                    old(self).active_quests@,
                    (#[trigger] updated@[k])@,
                    objective_type,
                    target@,
                    target.spec_bytes(),
                ),
            // A quest whose objectives were hit is reported.
            forall|q: int|
                0 <= q < old(self).active_quests@.len() && (exists|j: int|
                    0 <= j < (#[trigger] old(self).active_quests@[q]).objectives@.len()
                        && spec_objective_hit(
                        #[trigger] old(self).active_quests@[q].objectives@[j],
                        objective_type,
                        target@,
                        target.spec_bytes(),
                    )) ==> (exists|k: int|
                    0 <= k < updated@.len() && (#[trigger] updated@[k])@ == old(
                        self,
                    ).active_quests@[q].quest_id@),
    {
        if objective_type_eq(objective_type, QuestObjectiveType::Craft) {
            if !contains_string(&self.crafted_item_types, target) {
                self.crafted_item_types.push(target.to_owned());
            }
        }
        let crafted_count = self.crafted_item_types.len() as u64;

        let mut updated: Vec<String> = Vec::new();
        let n = self.active_quests.len();
        for qi in 0..n
            invariant
                n == self.active_quests@.len(),
                n == old(self).active_quests@.len(),
                self.wf(),
                self.player_id == old(self).player_id,
                self.completed_quests@ == old(self).completed_quests@,
                crafted_count == self.crafted_item_types@.len(),
                ({
                    let crafted = self.crafted_item_types@;
                    let before = old(self).crafted_item_types@;
                    if objective_type is Craft && !seq_contains_str(before, target@) {
                        crafted.len() == before.len() + 1 && crafted[before.len() as int]@
                            == target@ && (forall|i: int|
                            0 <= i < before.len() ==> crafted[i] == before[i])
                    } else {
                        crafted == before
                    }
                }),
                forall|q: int|
                    0 <= q < qi ==> spec_progress_after(
                        #[trigger] old(self).active_quests@[q],
                        self.active_quests@[q],
                        objective_type,
                        target@,
                        target.spec_bytes(),
                        amount,
                        crafted_count as nat,
                    ),
                forall|q: int|
                    qi <= q < n ==> #[trigger] self.active_quests@[q] == old(
                        self,
                    ).active_quests@[q],
                forall|k: int|
                    0 <= k < updated@.len() ==> progress_contains(
                        old(self).active_quests@,
                        (#[trigger] updated@[k])@,
                    ),
                forall|k: int|
                    0 <= k < updated@.len() ==> spec_reported_quest(
                        old(self).active_quests@,
                        (#[trigger] updated@[k])@,
                        objective_type,
                        target@,
                        target.spec_bytes(),
                    ),
                forall|q: int|
                    0 <= q < qi && (exists|j: int|
                        0 <= j < (#[trigger] old(self).active_quests@[q]).objectives@.len()
                            && spec_objective_hit(
                            #[trigger] old(self).active_quests@[q].objectives@[j],
                            objective_type,
                            target@,
                            target.spec_bytes(),
                        )) ==> (exists|k: int|
                        0 <= k < updated@.len() && (#[trigger] updated@[k])@ == old(
                            self,
                        ).active_quests@[q].quest_id@),
        {
            let ghost pre = self.active_quests@;
            let ghost u0 = updated@;
            let entry = &mut self.active_quests[qi];
            let changed = update_progress_objectives(
                entry,
                objective_type,
                target,
                amount,
                crafted_count,
            );
            if changed {
                let id = self.active_quests[qi].quest_id.clone();
                proof {
                    assert(old(self).active_quests@[qi as int].quest_id@ == id@);
                }
                updated.push(id);
            }
            proof {
                assert forall|q: int|
                    0 <= q < qi + 1 && (#[trigger] old(self).active_quests@[q]).objectives@.len()
                        >= 0 && (exists|j: int|
                        0 <= j < old(self).active_quests@[q].objectives@.len()
                            && spec_objective_hit(
                            #[trigger] old(self).active_quests@[q].objectives@[j],
                            objective_type,
                            target@,
                            target.spec_bytes(),
                        )) implies (exists|k: int|
                    0 <= k < updated@.len() && (#[trigger] updated@[k])@ == old(
                        self,
                    ).active_quests@[q].quest_id@) by {
                    if q < qi {
                        let k = choose|k: int|
                            0 <= k < u0.len() && (#[trigger] u0[k])@ == old(
                                self,
                            ).active_quests@[q].quest_id@;
                        assert(updated@[k]@ == old(self).active_quests@[q].quest_id@);
                    } else {
                        assert(changed);
                        assert(updated@[updated@.len() - 1]@ == old(
                            self,
                        ).active_quests@[qi as int].quest_id@);
                    }
                }
                assert forall|k: int| 0 <= k < updated@.len() implies spec_reported_quest(
                    old(self).active_quests@,
                    updated@[k]@,
                    objective_type,
                    target@,
                    target.spec_bytes(),
                ) by {
                    if k < u0.len() {
                        assert(updated@[k] == u0[k]);
                        assert(spec_reported_quest(
                            old(self).active_quests@,
                            u0[k]@,
                            objective_type,
                            target@,
                            target.spec_bytes(),
                        ));
                    } else {
                        assert(changed);
                        assert(updated@[k]@ == old(self).active_quests@[qi as int].quest_id@);
                        assert(spec_quest_hit(
                            old(self).active_quests@[qi as int],
                            objective_type,
                            target@,
                            target.spec_bytes(),
                        ));
                        assert((#[trigger] old(self).active_quests@[qi as int]).quest_id@
                            == updated@[k]@);
                    }
                }
            }
        }
        updated
    }

    /// Check one quest for completion: when every objective is saturated,
    /// the quest leaves the active set, joins the completed set, and its
    /// rewards are returned.
    pub fn check_completion(&mut self, quest_id: &str) -> (r: Option<Vec<QuestReward>>)
        requires
            old(self).wf(),
        ensures
            final(self).wf(),
            ({
                let found = find_progress(old(self).active_quests@, quest_id@);
                let done = found is Some && (forall|j: int|
                    0 <= j < found->0.objectives@.len() ==> (
                    #[trigger] found->0.objectives@[j]).current >= found->0.objectives@[j].required)
                    && quest_known(quest_id@);
                &&& (r is Some <==> done)
                &&& (r is None ==> *final(self) == *old(self))
                &&& (r is Some ==> {
                    &&& r->0@.len() == 2
                    &&& r->0@[0].reward_type@ == "omen"@
                    &&& r->0@[0].amount == crate::quest_db::spec_quest_omen(quest_id@)
                    &&& r->0@[1].reward_type@ == "xp"@
                    &&& r->0@[1].amount == crate::quest_db::spec_quest_xp(quest_id@)
                    &&& final(self).active_quests@.len() == old(self).active_quests@.len() - 1
                    &&& !progress_contains(final(self).active_quests@, quest_id@)
                    &&& (forall|k: Seq<char>|
                        k != quest_id@ ==> find_progress(final(self).active_quests@, k)
                            == #[trigger] find_progress(old(self).active_quests@, k))
                    &&& seq_contains_str(final(self).completed_quests@, quest_id@)
                    &&& (forall|k: Seq<char>|
                        k != quest_id@ ==> (seq_contains_str(final(self).completed_quests@, k)
                            <==> #[trigger] seq_contains_str(old(self).completed_quests@, k)))
                    &&& final(self).crafted_item_types@ == old(self).crafted_item_types@
                    &&& final(self).player_id == old(self).player_id
                })
            }),
    {
        let idx = match self.find_active(quest_id) {
            Some(i) => i,
            None => {
                proof {
                    lemma_find_progress_absent(self.active_quests@, quest_id@);
                }
                return None;
            },
        };
        proof {
            lemma_find_progress_at(self.active_quests@, idx as int, quest_id@);
        }

        let m = self.active_quests[idx].objectives.len();
        for j in 0..m
            invariant
                *self == *old(self),
                old(self).wf(),
                idx < self.active_quests@.len(),
                m == self.active_quests@[idx as int].objectives@.len(),
                find_progress(old(self).active_quests@, quest_id@) == Some(
                    self.active_quests@[idx as int],
                ),
                forall|t: int|
                    0 <= t < j ==> (#[trigger] self.active_quests@[idx as int].objectives@[t]).current
                        >= self.active_quests@[idx as int].objectives@[t].required,
        {
            let ob = &self.active_quests[idx].objectives[j];
            if ob.current < ob.required {
                return None;
            }
        }

        let quest = match get_quest_by_id(quest_id) {
            Some(q) => q,
            None => {
                return None;
            },
        };

        let ghost olds = self.active_quests@;
        proof {
            olds.remove_ensures(idx as int);
        }
        self.active_quests.remove(idx);
        proof {
            assert forall|j: int|
                0 <= j < self.active_quests@.len() implies (
            #[trigger] self.active_quests@[j]).quest_id@ != quest_id@ by {
                if j < idx {
                    assert(self.active_quests@[j] == olds[j]);
                } else {
                    assert(self.active_quests@[j] == olds[j + 1]);
                }
            }
            assert forall|k: Seq<char>| k != quest_id@ implies find_progress(
                self.active_quests@,
                k,
            ) == #[trigger] find_progress(olds, k) by {
                lemma_find_progress_remove_other(olds, idx as int, k);
            }
        }

        if !contains_string(&self.completed_quests, quest_id) {
            let ghost before = self.completed_quests@;
            self.completed_quests.push(quest_id.to_owned());
            proof {
                assert(self.completed_quests@[before.len() as int]@ == quest_id@);
                assert forall|k: Seq<char>| k != quest_id@ implies (seq_contains_str(
                    self.completed_quests@,
                    k,
                ) <==> seq_contains_str(before, k)) by {
                    if seq_contains_str(self.completed_quests@, k) {
                        let w = choose|w: int|
                            0 <= w < self.completed_quests@.len() && (
                            #[trigger] self.completed_quests@[w])@ == k;
                        assert(w < before.len());
                        assert(before[w]@ == k);
                    }
                    if seq_contains_str(before, k) {
                        let w = choose|w: int|
                            0 <= w < before.len() && (#[trigger] before[w])@ == k;
                        assert(self.completed_quests@[w]@ == k);
                    }
                }
            }
        }

        Some(quest.rewards)
    }

    /// Restore active quests from persisted entries, replacing any entry
    /// that shares an id.  Restoring into a fresh tracker reproduces the
    /// entries exactly.
    pub fn restore_active_quests(&mut self, entries: Vec<QuestProgress>)
        requires
            old(self).wf(),
        ensures
            final(self).wf(),
            final(self).completed_quests@ == old(self).completed_quests@,
            final(self).crafted_item_types@ == old(self).crafted_item_types@,
            final(self).player_id == old(self).player_id,
            (old(self).active_quests@.len() == 0 && (forall|i: int, j: int|
                0 <= i < j < entries@.len() ==> (#[trigger] entries@[i]).quest_id@ != (
                #[trigger] entries@[j]).quest_id@)) ==> {
                &&& final(self).active_quests@.len() == entries@.len()
                &&& (forall|i: int|
                    0 <= i < entries@.len() ==> {
                        &&& (#[trigger] final(self).active_quests@[i]).quest_id
                            == entries@[i].quest_id
                        &&& final(self).active_quests@[i].status == entries@[i].status
                        &&& final(self).active_quests@[i].objectives@ == entries@[i].objectives@
                    })
            },
    {
        let ghost fresh = old(self).active_quests@.len() == 0 && (forall|i: int, j: int|
            0 <= i < j < entries@.len() ==> (#[trigger] entries@[i]).quest_id@ != (
            #[trigger] entries@[j]).quest_id@);
        let n = entries.len();
        for i in 0..n
            invariant
                n == entries@.len(),
                self.wf(),
                self.completed_quests@ == old(self).completed_quests@,
                self.crafted_item_types@ == old(self).crafted_item_types@,
                self.player_id == old(self).player_id,
                fresh == (old(self).active_quests@.len() == 0 && (forall|a: int, b: int|
                    0 <= a < b < entries@.len() ==> (#[trigger] entries@[a]).quest_id@ != (
                    #[trigger] entries@[b]).quest_id@)),
                fresh ==> {
                    &&& self.active_quests@.len() == i
                    &&& (forall|t: int|
                        0 <= t < i ==> {
                            &&& (#[trigger] self.active_quests@[t]).quest_id
                                == entries@[t].quest_id
                            &&& self.active_quests@[t].status == entries@[t].status
                            &&& self.active_quests@[t].objectives@ == entries@[t].objectives@
                        })
                },
        {
            let e = entries[i].clone();
            match self.find_active(entries_id(&entries, i)) {
                Some(j) => {
                    self.active_quests[j] = e;
                    proof {
                        assert(!fresh);
                    }
                },
                None => {
                    self.active_quests.push(e);
                },
            }
        }
    }

    /// Restore completed quest ids, skipping duplicates.
    pub fn restore_completed_quests(&mut self, ids: Vec<String>)
        requires
            old(self).wf(),
        ensures
            final(self).wf(),
            final(self).active_quests@ == old(self).active_quests@,
            final(self).crafted_item_types@ == old(self).crafted_item_types@,
            final(self).player_id == old(self).player_id,
            forall|i: int|
                0 <= i < ids@.len() ==> seq_contains_str(
                    final(self).completed_quests@,
                    (#[trigger] ids@[i])@,
                ),
            forall|k: Seq<char>|
                #[trigger] seq_contains_str(old(self).completed_quests@, k) ==> seq_contains_str(
                    final(self).completed_quests@,
                    k,
                ),
    {
        let r = merge_unique_strings(&mut self.completed_quests, &ids);
    }

    /// Restore crafted item types, skipping duplicates.
    pub fn restore_crafted_item_types(&mut self, types: Vec<String>)
        requires
            old(self).wf(),
        ensures
            final(self).wf(),
            final(self).active_quests@ == old(self).active_quests@,
            final(self).completed_quests@ == old(self).completed_quests@,
            final(self).player_id == old(self).player_id,
            forall|i: int|
                0 <= i < types@.len() ==> seq_contains_str(
                    final(self).crafted_item_types@,
                    (#[trigger] types@[i])@,
                ),
    {
        let r = merge_unique_strings(&mut self.crafted_item_types, &types);
    }

    /// Clones of the active quest progress entries, for persistence.
    pub fn export_active_quests(&self) -> (r: Vec<QuestProgress>)
        ensures
            r@.len() == self.active_quests@.len(),
            forall|i: int|
                0 <= i < r@.len() ==> {
                    &&& (#[trigger] r@[i]).quest_id == self.active_quests@[i].quest_id
                    &&& r@[i].status == self.active_quests@[i].status
                    &&& r@[i].objectives@ == self.active_quests@[i].objectives@
                },
    {
        self.get_active_quests()
    }

    /// Clones of the completed quest ids, for persistence.
    pub fn export_completed_quest_ids(&self) -> (r: Vec<String>)
        ensures
            r@.len() == self.completed_quests@.len(),
            forall|i: int| 0 <= i < r@.len() ==> #[trigger] r@[i] == self.completed_quests@[i],
    {
        clone_strings(&self.completed_quests)
    }

    /// Clones of the crafted item types, for persistence.
    pub fn export_crafted_item_types(&self) -> (r: Vec<String>)
        ensures
            r@.len() == self.crafted_item_types@.len(),
            forall|i: int| 0 <= i < r@.len() ==> #[trigger] r@[i] == self.crafted_item_types@[i],
    {
        clone_strings(&self.crafted_item_types)
    }

    /// The quests the player can accept now: known, level met, not active,
    /// repeatable or not yet completed, and all prerequisites completed.
    pub fn get_available_quests(&self, player_level: u32) -> (r: Vec<Quest>)
        requires
            self.wf(),
        ensures
            forall|i: int|
                0 <= i < r@.len() ==> {
                    let q = #[trigger] r@[i];
                    &&& quest_known(q.id@)
                    &&& spec_quest_level(q.id@) <= player_level
                    &&& !progress_contains(self.active_quests@, q.id@)
                    &&& (spec_quest_repeatable(q.id@) || !seq_contains_str(
                        self.completed_quests@,
                        q.id@,
                    ))
                    &&& (forall|p: int|
                        0 <= p < spec_quest_prereqs(q.id@).len() ==> seq_contains_str(
                            self.completed_quests@,
                            #[trigger] spec_quest_prereqs(q.id@)[p],
                        ))
                },
    {
        let quests = all_quests();
        let mut out: Vec<Quest> = Vec::new();
        let n = quests.len();
        for i in 0..n
            invariant
                n == quests@.len(),
                self.wf(),
                forall|t: int| 0 <= t < quests@.len() ==> quest_entry_wf(#[trigger] quests@[t]),
                forall|t: int|
                    0 <= t < out@.len() ==> {
                        let q = #[trigger] out@[t];
                        &&& quest_known(q.id@)
                        &&& spec_quest_level(q.id@) <= player_level
                        &&& !progress_contains(self.active_quests@, q.id@)
                        &&& (spec_quest_repeatable(q.id@) || !seq_contains_str(
                            self.completed_quests@,
                            q.id@,
                        ))
                        &&& (forall|p: int|
                            0 <= p < spec_quest_prereqs(q.id@).len() ==> seq_contains_str(
                                self.completed_quests@,
                                #[trigger] spec_quest_prereqs(q.id@)[p],
                            ))
                    },
        {
            let q = &quests[i];
            let level_ok = q.level <= player_level;
            let not_active = self.find_active(quests_id(&quests, i)).is_none();
            let repeat_ok = q.is_repeatable || !contains_string(
                &self.completed_quests,
                quests_id(&quests, i),
            );
            if !(level_ok && not_active && repeat_ok) {
                // Not eligible; skip.
            } else {
            let np = q.prerequisites.len();
            let mut prereqs_ok = true;
            for p in 0..np
                invariant
                    np == quests@[i as int].prerequisites@.len(),
                    i < quests@.len(),
                    quest_entry_wf(quests@[i as int]),
                    prereqs_ok ==> forall|t: int|
                        0 <= t < p ==> seq_contains_str(
                            self.completed_quests@,
                            #[trigger] spec_quest_prereqs(quests@[i as int].id@)[t],
                        ),
                    !prereqs_ok ==> true,
            {
                if !contains_string(&self.completed_quests, quest_prereq(&quests, i, p)) {
                    prereqs_ok = false;
                }
            }
            if prereqs_ok {
                proof {
                    assert(quest_entry_wf(quests@[i as int]));
                }
                out.push(q.clone());
            }
            }
        }
        out
    }
}

// Borrow helpers: string slices out of nested vectors.
fn entries_id<'a>(entries: &'a Vec<QuestProgress>, i: usize) -> (r: &'a str)
    requires
        i < entries@.len(),
    ensures
        r@ == entries@[i as int].quest_id@,
{
    entries[i].quest_id.as_str()
}

fn quests_id<'a>(quests: &'a Vec<Quest>, i: usize) -> (r: &'a str)
    requires
        i < quests@.len(),
    ensures
        r@ == quests@[i as int].id@,
{
    quests[i].id.as_str()
}

fn quest_prereq<'a>(quests: &'a Vec<Quest>, i: usize, p: usize) -> (r: &'a str)
    requires
        i < quests@.len(),
        p < quests@[i as int].prerequisites@.len(),
    ensures
        r@ == quests@[i as int].prerequisites@[p as int]@,
{
    quests[i].prerequisites[p].as_str()
}

/// Append every string of `src` that `dst` does not yet hold; keeps the
/// strings of `dst` pairwise distinct.
fn merge_unique_strings(dst: &mut Vec<String>, src: &Vec<String>) -> (r: ())
    requires
        forall|i: int, j: int|
            0 <= i < j < old(dst)@.len() ==> (#[trigger] old(dst)@[i])@ != (
            #[trigger] old(dst)@[j])@,
    ensures
        forall|i: int, j: int|
            0 <= i < j < final(dst)@.len() ==> (#[trigger] final(dst)@[i])@ != (
            #[trigger] final(dst)@[j])@,
        forall|i: int|
            0 <= i < src@.len() ==> seq_contains_str(final(dst)@, (#[trigger] src@[i])@),
        forall|k: Seq<char>|
            #[trigger] seq_contains_str(old(dst)@, k) ==> seq_contains_str(final(dst)@, k),
        forall|k: Seq<char>|
            #[trigger] seq_contains_str(final(dst)@, k) ==> (seq_contains_str(old(dst)@, k)
                || seq_contains_str(src@, k)),
{
    let n = src.len();
    for i in 0..n
        invariant
            n == src@.len(),
            forall|a: int, b: int|
                0 <= a < b < dst@.len() ==> (#[trigger] dst@[a])@ != (#[trigger] dst@[b])@,
            forall|t: int| 0 <= t < i ==> seq_contains_str(dst@, (#[trigger] src@[t])@),
            forall|k: Seq<char>|
                #[trigger] seq_contains_str(old(dst)@, k) ==> seq_contains_str(dst@, k),
            forall|k: Seq<char>|
                #[trigger] seq_contains_str(dst@, k) ==> (seq_contains_str(old(dst)@, k)
                    || seq_contains_str(src@, k)),
    {
        let ghost before = dst@;
        if !contains_string(dst, src_str(src, i)) {
            dst.push(src[i].clone());
            proof {
                assert(dst@[before.len() as int]@ == src@[i as int]@);
                assert(seq_contains_str(src@, src@[i as int]@));
                assert forall|k: Seq<char>| #[trigger] seq_contains_str(before, k) implies
                    seq_contains_str(dst@, k) by {
                    let w = choose|w: int| 0 <= w < before.len() && (#[trigger] before[w])@ == k;
                    assert(dst@[w]@ == k);
                }
                assert forall|k: Seq<char>| #[trigger] seq_contains_str(dst@, k) implies (
                    seq_contains_str(before, k) || seq_contains_str(src@, k)) by {
                    let w = choose|w: int| 0 <= w < dst@.len() && (#[trigger] dst@[w])@ == k;
                    if w < before.len() {
                        assert(before[w]@ == k);
                    } else {
                        assert(src@[i as int]@ == k);
                    }
                }
            }
        }
    }
}

fn src_str<'a>(v: &'a Vec<String>, i: usize) -> (r: &'a str)
    requires
        i < v@.len(),
    ensures
        r@ == v@[i as int]@,
{
    v[i].as_str()
}

/// Whether the vector holds a string equal to `k`.
pub fn contains_string(v: &Vec<String>, k: &str) -> (r: bool)
    ensures
        r == seq_contains_str(v@, k@),
{
    let n = v.len();
    for i in 0..n
        invariant
            n == v@.len(),
            forall|j: int| 0 <= j < i ==> (#[trigger] v@[j])@ != k@,
    {
        if str_eq(v[i].as_str(), k) {
            return true;
        }
    }
    false
}

/// Clones of all strings in the vector.
pub fn clone_strings(v: &Vec<String>) -> (r: Vec<String>)
    ensures
        r@.len() == v@.len(),
        forall|i: int| 0 <= i < r@.len() ==> #[trigger] r@[i] == v@[i],
{
    let mut r: Vec<String> = Vec::new();
    let n = v.len();
    for i in 0..n
        invariant
            n == v@.len(),
            r@.len() == i,
            forall|t: int| 0 <= t < i ==> #[trigger] r@[t] == v@[t],
    {
        r.push(v[i].clone());
    }
    r
}

} // verus!

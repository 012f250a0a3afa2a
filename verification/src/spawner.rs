//! NPC population management: per-zone spawn tables, initial population,
//! the respawn queue, and the per-tick behaviour pass.

use vstd::prelude::*;

use crate::npc::{
    check_npc_attack, get_npc_template, npc_to_state_payload, process_npc_ai, Faction, LootDrop,
    NPCAttackResult, NPCDeathPayload, NPCSnapshot, NPCSpawnPayload, NPCStatePayload, NPCType, NPC,
};
use crate::player::{PlayerState, WORLD_LIMIT_MILLI};
use crate::quest_tracker::seq_contains_str;
use crate::rng::random_coord;
use crate::util::str_eq;
use crate::zone::Zone;

verus! {

/// One line of a zone's spawn table.
#[derive(Clone, Copy, PartialEq, Eq, Structural, Debug)]
pub struct SpawnConfig {
    pub npc_type: NPCType,
    pub max_count: usize,
    pub respawn_time_ms: u64,
}

/// The spawn table of a zone: which NPC kinds it hosts, how many at
/// once, and how fast they respawn.
pub fn get_zone_npc_configs(zone_id: &str) -> (r: Vec<SpawnConfig>)
    ensures
        r@.len() <= 2,
{
    let mut out: Vec<SpawnConfig> = Vec::new();
    if str_eq(zone_id, "uurf-orbit") {
        out.push(SpawnConfig { npc_type: NPCType::Pirate, max_count: 3, respawn_time_ms: 30_000 });
        out.push(SpawnConfig { npc_type: NPCType::Trader, max_count: 2, respawn_time_ms: 45_000 });
    } else if str_eq(zone_id, "asteroid-belt-alpha") {
        out.push(SpawnConfig { npc_type: NPCType::Pirate, max_count: 5, respawn_time_ms: 25_000 });
        out.push(
            SpawnConfig { npc_type: NPCType::MiningDrone, max_count: 3, respawn_time_ms: 40_000 },
        );
    } else if str_eq(zone_id, "uurf-hub") {
        out.push(
            SpawnConfig { npc_type: NPCType::StationGuard, max_count: 2, respawn_time_ms: 20_000 },
        );
    } else if str_eq(zone_id, "uurf-surface") {
        out.push(SpawnConfig { npc_type: NPCType::Trader, max_count: 1, respawn_time_ms: 60_000 });
        out.push(
            SpawnConfig { npc_type: NPCType::MiningDrone, max_count: 1, respawn_time_ms: 50_000 },
        );
    }
    out
}

/// A pending respawn.
pub struct RespawnEntry {
    pub npc_type: NPCType,
    pub zone_id: String,
    pub timer_ms: u64,
}

pub struct NPCSpawnEvent {
    pub zone_id: String,
    pub payload: NPCSpawnPayload,
}

pub struct NPCDeathEvent {
    pub npc_id: u32,
    pub zone_id: String,
    pub payload: NPCDeathPayload,
    pub killer_id: Option<u32>,
}

pub struct SpawnManager {
    pub npcs: Vec<NPC>,
    pub respawn_queue: Vec<RespawnEntry>,
    pub initialized_zones: Vec<String>,
    pub next_npc_id: u32,
}

impl SpawnManager {
    /// Every held NPC is well formed.
    pub open spec fn wf(&self) -> bool {
        forall|i: int| 0 <= i < self.npcs@.len() ==> (#[trigger] self.npcs@[i]).wf()
    }

    pub fn new() -> (r: Self)
        ensures
            r.wf(),
            r.npcs@.len() == 0,
            r.respawn_queue@.len() == 0,
            r.initialized_zones@.len() == 0,
    {
        SpawnManager {
            npcs: Vec::new(),
            respawn_queue: Vec::new(),
            initialized_zones: Vec::new(),
            next_npc_id: 10_000,
        }
    }

    /// Spawn one NPC of the given kind somewhere in the zone, with a
    /// random patrol route.
    fn spawn_npc(&mut self, npc_type: NPCType, zone: &Zone) -> (r: NPCSpawnEvent)
        requires
            old(self).wf(),
            zone.wf(),
        ensures
            final(self).wf(),
            final(self).npcs@.len() == old(self).npcs@.len() + 1,
            final(self).respawn_queue@ == old(self).respawn_queue@,
            final(self).initialized_zones@ == old(self).initialized_zones@,
            r.zone_id@ == zone.id@,
    {
        let template = get_npc_template(npc_type);
        let (x, y) = zone.random_spawn_position();
        let mut waypoints: Vec<(i64, i64)> = Vec::new();
        let mut k: usize = 0;
        while k < 4
            invariant
                zone.wf(),
            decreases 4 - k,
        {
            let wx = random_coord(zone.bounds.x_min, zone.bounds.x_max);
            let wy = random_coord(zone.bounds.y_min, zone.bounds.y_max);
            waypoints.push((wx, wy));
            k = k + 1;
        }
        let id = self.next_npc_id;
        self.next_npc_id = self.next_npc_id.wrapping_add(1);
        let npc = NPC {
            id,
            npc_type: template.npc_type,
            faction: template.faction,
            x,
            y,
            vx: 0,
            vy: 0,
            combat: template.combat_stats,
            behavior_state: crate::npc::BehaviorState::Idle,
            target_player_id: None,
            target_position: None,
            patrol_waypoints: waypoints,
            patrol_index: 0,
            idle_timer_ms: 0,
            aggro_range_milli: template.aggro_range_milli,
            flee_threshold_centi: template.flee_threshold_centi,
            move_speed_milli: template.move_speed_milli,
            alive: true,
            zone_id: zone.id.clone(),
            loot_table: template.loot_table,
        };
        let payload = NPCSpawnPayload {
            npc_id: npc.id,
            npc_type: npc.npc_type,
            x: npc.x,
            y: npc.y,
            faction: npc.faction,
        };
        let ghost before = self.npcs@;
        self.npcs.push(npc);
        proof {
            assert forall|i: int| 0 <= i < self.npcs@.len() implies (#[trigger] self.npcs@[i]).wf()
                by {
                if i < before.len() {
                    assert(self.npcs@[i] == before[i]);
                }
            }
        }
        NPCSpawnEvent { zone_id: zone.id.clone(), payload }
    }

    /// Give a zone its initial population, once: a second call spawns
    /// nothing.
    pub fn initialize_zone(&mut self, zone: &Zone) -> (r: Vec<NPCSpawnEvent>)
        requires
            old(self).wf(),
            zone.wf(),
        ensures
            final(self).wf(),
            seq_contains_str(old(self).initialized_zones@, zone.id@) ==> r@.len() == 0
                && *final(self) == *old(self),
            seq_contains_str(final(self).initialized_zones@, zone.id@),
            final(self).respawn_queue@ == old(self).respawn_queue@,
    {
        if crate::quest_tracker::contains_string(&self.initialized_zones, zone.id.as_str()) {
            return Vec::new();
        }
        self.initialized_zones.push(zone.id.clone());
        proof {
            assert(self.initialized_zones@[old(self).initialized_zones@.len() as int]@
                == zone.id@);
        }

        let configs = get_zone_npc_configs(zone.id.as_str());
        let mut events: Vec<NPCSpawnEvent> = Vec::new();
        let nc = configs.len();
        for ci in 0..nc
            invariant
                nc == configs@.len(),
                self.wf(),
                zone.wf(),
                self.respawn_queue@ == old(self).respawn_queue@,
                seq_contains_str(self.initialized_zones@, zone.id@),
        {
            let target = configs[ci].max_count;
            let mut k: usize = 0;
            while k < target
                invariant
                    ci < nc,
                    nc == configs@.len(),
                    self.wf(),
                    zone.wf(),
                    self.respawn_queue@ == old(self).respawn_queue@,
                    seq_contains_str(self.initialized_zones@, zone.id@),
                decreases target - k,
            {
                let ev = self.spawn_npc(configs[ci].npc_type, zone);
                events.push(ev);
                k = k + 1;
            }
        }
        events
    }

    /// Count the living NPCs of one kind in one zone.
    pub fn alive_count_by_type(&self, zone_id: &str, npc_type: NPCType) -> (r: usize)
        ensures
            r <= self.npcs@.len(),
    {
        let mut count: usize = 0;
        let n = self.npcs.len();
        for i in 0..n
            invariant
                n == self.npcs@.len(),
                count <= i,
        {
            let same_type = npc_type_eq(self.npcs[i].npc_type, npc_type);
            if self.npcs[i].alive && same_type && str_eq(
                self.npcs[i].zone_id.as_str(),
                zone_id,
            ) {
                count = count + 1;
            }
        }
        count
    }

    /// Count all living NPCs.
    pub fn total_npc_count(&self) -> (r: usize)
        ensures
            r <= self.npcs@.len(),
    {
        let mut count: usize = 0;
        let n = self.npcs.len();
        for i in 0..n
            invariant
                n == self.npcs@.len(),
                count <= i,
        {
            if self.npcs[i].alive {
                count = count + 1;
            }
        }
        count
    }

    /// Index of the NPC with the given id.
    pub fn npc_index(&self, npc_id: u32) -> (r: Option<usize>)
        ensures
            match r {
                Some(i) => i < self.npcs@.len() && self.npcs@[i as int].id == npc_id,
                None => true,
            },
    {
        let n = self.npcs.len();
        for i in 0..n
            invariant
                n == self.npcs@.len(),
        {
            if self.npcs[i].id == npc_id {
                return Some(i);
            }
        }
        None
    }

    /// Advance the respawn queue and refill under-populated zones; a
    /// The queue after one tick holds exactly the entries that were not
    /// yet due, in order, each with its timer run down by the tick.
    pub open spec fn spec_pending_match(q: Seq<RespawnEntry>, out: Seq<RespawnEntry>, dt_ms: u64) -> bool
        decreases q.len(),
    {
        if q.len() == 0 {
            out.len() == 0
        } else if q[0].timer_ms <= dt_ms {
            Self::spec_pending_match(q.drop_first(), out, dt_ms)
        } else {
            &&& out.len() >= 1
            &&& out[0].npc_type == q[0].npc_type
            &&& out[0].zone_id@ == q[0].zone_id@
            &&& out[0].timer_ms == q[0].timer_ms - dt_ms
            &&& Self::spec_pending_match(q.drop_first(), out.drop_first(), dt_ms)
        }
    }

    /// zone not yet initialised receives its first population.
    pub fn process_spawn_tick(&mut self, zones: &Vec<Zone>, dt_ms: u64) -> (r: Vec<NPCSpawnEvent>)
        requires
            old(self).wf(),
            forall|i: int| 0 <= i < zones@.len() ==> (#[trigger] zones@[i]).wf(),
        ensures
            final(self).wf(),
            // The queue keeps exactly the entries not yet due, in order,
            // timers run down by the tick.
            Self::spec_pending_match(
                old(self).respawn_queue@,
                final(self).respawn_queue@,
                dt_ms,
            ),
    {
        let mut events: Vec<NPCSpawnEvent> = Vec::new();

        // First sight of a zone: initial population.
        let nz = zones.len();
        for zi in 0..nz
            invariant
                nz == zones@.len(),
                self.wf(),
                self.respawn_queue@ == old(self).respawn_queue@,
                forall|i: int| 0 <= i < zones@.len() ==> (#[trigger] zones@[i]).wf(),
        {
            let mut evs = self.initialize_zone(&zones[zi]);
            events.append(&mut evs);
        }

        // Respawn timers.
        let mut still_pending: Vec<RespawnEntry> = Vec::new();
        let nq = self.respawn_queue.len();
        let mut qi: usize = 0;
        while qi < nq
            invariant
                qi <= nq,
                nq == self.respawn_queue@.len(),
                self.wf(),
                self.respawn_queue@ == old(self).respawn_queue@,
                Self::spec_pending_match(
                    old(self).respawn_queue@.take(qi as int),
                    still_pending@,
                    dt_ms,
                ),
                forall|i: int| 0 <= i < zones@.len() ==> (#[trigger] zones@[i]).wf(),
            decreases nq - qi,
        {
            proof {
                assert(old(self).respawn_queue@.take(qi as int + 1) =~= old(
                    self,
                ).respawn_queue@.take(qi as int).push(old(self).respawn_queue@[qi as int]));
            }
            let due = self.respawn_queue[qi].timer_ms <= dt_ms;
            if due {
                let npc_type = self.respawn_queue[qi].npc_type;
                let zone_id = self.respawn_queue[qi].zone_id.clone();
                let zi_opt = find_zone_index(zones, zone_id.as_str());
                match zi_opt {
                    Some(zi) => {
                        let configs = get_zone_npc_configs(zone_id.as_str());
                        let cap = max_count_for(&configs, npc_type);
                        let current = self.alive_count_by_type(zone_id.as_str(), npc_type);
                        if current < cap {
                            let ev = self.spawn_npc(npc_type, &zones[zi]);
                            events.push(ev);
                        }
                    },
                    None => {},
                }
                proof {
                    lemma_pending_push_due(
                        old(self).respawn_queue@.take(qi as int),
                        still_pending@,
                        old(self).respawn_queue@[qi as int],
                        dt_ms,
                    );
                }
            } else {
                let e = &self.respawn_queue[qi];
                let ghost sp0 = still_pending@;
                still_pending.push(
                    RespawnEntry {
                        npc_type: e.npc_type,
                        zone_id: e.zone_id.clone(),
                        timer_ms: e.timer_ms - dt_ms,
                    },
                );
                proof {
                    lemma_pending_push_waiting(
                        old(self).respawn_queue@.take(qi as int),
                        sp0,
                        old(self).respawn_queue@[qi as int],
                        still_pending@.last(),
                        dt_ms,
                    );
                }
            }
            qi = qi + 1;
        }
        proof {
            assert(old(self).respawn_queue@.take(nq as int) =~= old(self).respawn_queue@);
        }
        self.respawn_queue = still_pending;
        events
    }

    /// One behaviour tick for every living NPC; returns the attack
    /// intents for the host to resolve.
    pub fn process_ai_tick(&mut self, zones: &Vec<Zone>, dt_ms: u64) -> (r: Vec<(
        u32,
        NPCAttackResult,
    )>)
        requires
            old(self).wf(),
            dt_ms <= 10_000,
            forall|i: int| 0 <= i < zones@.len() ==> (#[trigger] zones@[i]).wf(),
        ensures
            final(self).wf(),
            final(self).npcs@.len() == old(self).npcs@.len(),
    {
        let mut attacks: Vec<(u32, NPCAttackResult)> = Vec::new();

        // Snapshots for guard behaviour.
        let mut snapshots: Vec<NPCSnapshot> = Vec::new();
        let n = self.npcs.len();
        for i in 0..n
            invariant
                n == self.npcs@.len(),
                self.wf(),
                forall|t: int|
                    0 <= t < snapshots@.len() ==> -WORLD_LIMIT_MILLI <= (
                    #[trigger] snapshots@[t]).x <= WORLD_LIMIT_MILLI && -WORLD_LIMIT_MILLI
                        <= snapshots@[t].y <= WORLD_LIMIT_MILLI,
        {
            if self.npcs[i].alive {
                proof {
                    assert(self.npcs@[i as int].wf());
                }
                snapshots.push(
                    NPCSnapshot {
                        id: self.npcs[i].id,
                        faction: self.npcs[i].faction,
                        x: self.npcs[i].x,
                        y: self.npcs[i].y,
                        alive: self.npcs[i].alive,
                    },
                );
            }
        }

        for i in 0..n
            invariant
                n == self.npcs@.len(),
                self.wf(),
                dt_ms <= 10_000,
                forall|z: int| 0 <= z < zones@.len() ==> (#[trigger] zones@[z]).wf(),
                forall|t: int|
                    0 <= t < snapshots@.len() ==> -WORLD_LIMIT_MILLI <= (
                    #[trigger] snapshots@[t]).x <= WORLD_LIMIT_MILLI && -WORLD_LIMIT_MILLI
                        <= snapshots@[t].y <= WORLD_LIMIT_MILLI,
        {
            if self.npcs[i].alive {
                let players = collect_zone_players(zones, npc_zone(&self.npcs, i));
                let npc = &mut self.npcs[i];
                process_npc_ai(npc, &players, &snapshots, dt_ms);
                let att = check_npc_attack(npc);
                let id = self.npcs[i].id;
                match att {
                    Some(a) => {
                        attacks.push((id, a));
                    },
                    None => {},
                }
            }
        }
        attacks
    }

    /// Kill an NPC: it is removed, its loot is rolled, and a respawn
    /// entry is queued when the zone's table lists its kind.
    pub fn handle_npc_death(&mut self, npc_id: u32, killer_id: Option<u32>) -> (r: Option<
        NPCDeathEvent,
    >)
        requires
            old(self).wf(),
        ensures
            final(self).wf(),
            r is None ==> *final(self) == *old(self),
            r is Some ==> final(self).npcs@.len() == old(self).npcs@.len() - 1
                && r->0.npc_id == npc_id && r->0.killer_id == killer_id,
    {
        let i = match self.npc_index(npc_id) {
            Some(i) => i,
            None => {
                return None;
            },
        };
        if !self.npcs[i].alive {
            return None;
        }
        let loot_items = self.npcs[i].roll_loot();
        let zone_id = self.npcs[i].zone_id.clone();
        let npc_type = self.npcs[i].npc_type;

        // Queue the respawn when the zone hosts this kind.
        let configs = get_zone_npc_configs(zone_id.as_str());
        let nc = configs.len();
        for ci in 0..nc
            invariant
                nc == configs@.len(),
                self.wf(),
                i < self.npcs@.len(),
                self.npcs@ == old(self).npcs@,
        {
            if npc_type_eq(configs[ci].npc_type, npc_type) {
                self.respawn_queue.push(
                    RespawnEntry {
                        npc_type,
                        zone_id: zone_id.clone(),
                        timer_ms: configs[ci].respawn_time_ms,
                    },
                );
            }
        }

        let ghost before = self.npcs@;
        proof {
            before.remove_ensures(i as int);
        }
        self.npcs.remove(i);
        proof {
            assert forall|t: int| 0 <= t < self.npcs@.len() implies (#[trigger] self.npcs@[t]).wf()
                by {
                if t < i {
                    assert(self.npcs@[t] == before[t]);
                } else {
                    assert(self.npcs@[t] == before[t + 1]);
                }
            }
        }

        Some(
            NPCDeathEvent {
                npc_id,
                zone_id,
                payload: NPCDeathPayload { npc_id, loot_items },
                killer_id,
            },
        )
    }

    /// Apply damage to an NPC; a kill turns into a death event, and a
    /// surviving NPC remembers its attacker.
    pub fn damage_npc(&mut self, npc_id: u32, damage: u64, attacker_id: Option<u32>) -> (r: Option<
        NPCDeathEvent,
    >)
        requires
            old(self).wf(),
        ensures
            final(self).wf(),
    {
        let i = match self.npc_index(npc_id) {
            Some(i) => i,
            None => {
                return None;
            },
        };
        if !self.npcs[i].alive {
            return None;
        }
        let npc = &mut self.npcs[i];
        let died = npc.take_damage(damage);
        if died {
            return self.handle_npc_death(npc_id, attacker_id);
        }
        let has_target = match self.npcs[i].target_player_id {
            Some(_) => true,
            None => false,
        };
        match attacker_id {
            Some(aid) => {
                if !has_target {
                    let npc2 = &mut self.npcs[i];
                    npc2.target_player_id = Some(aid);
                }
            },
            None => {},
        }
        None
    }

    /// State payloads of the living NPCs of one zone.
    pub fn get_zone_npc_states(&self, zone_id: &str) -> (r: Vec<NPCStatePayload>)
        ensures
            r@.len() <= self.npcs@.len(),
    {
        let mut out: Vec<NPCStatePayload> = Vec::new();
        let n = self.npcs.len();
        for i in 0..n
            invariant
                n == self.npcs@.len(),
                out@.len() <= i,
        {
            if self.npcs[i].alive && str_eq(self.npcs[i].zone_id.as_str(), zone_id) {
                out.push(npc_to_state_payload(&self.npcs[i]));
            }
        }
        out
    }
}

fn npc_type_eq(a: NPCType, b: NPCType) -> (r: bool)
    ensures
        r == (a == b),
{
    a == b
}

fn npc_zone<'a>(npcs: &'a Vec<NPC>, i: usize) -> (r: &'a str)
    requires
        i < npcs@.len(),
    ensures
        r@ == npcs@[i as int].zone_id@,
{
    npcs[i].zone_id.as_str()
}

fn find_zone_index(zones: &Vec<Zone>, zone_id: &str) -> (r: Option<usize>)
    ensures
        match r {
            Some(i) => i < zones@.len() && zones@[i as int].id@ == zone_id@,
            None => true,
        },
{
    let n = zones.len();
    for i in 0..n
        invariant
            n == zones@.len(),
    {
        if str_eq(zones[i].id.as_str(), zone_id) {
            return Some(i);
        }
    }
    None
}

fn max_count_for(configs: &Vec<SpawnConfig>, npc_type: NPCType) -> (r: usize)
{
    let n = configs.len();
    for i in 0..n
        invariant
            n == configs@.len(),
    {
        if npc_type_eq(configs[i].npc_type, npc_type) {
            return configs[i].max_count;
        }
    }
    0
}

/// The connected players of the named zone, as movement states.
fn collect_zone_players(zones: &Vec<Zone>, zone_id: &str) -> (r: Vec<PlayerState>)
    requires
        forall|i: int| 0 <= i < zones@.len() ==> (#[trigger] zones@[i]).wf(),
    ensures
        forall|i: int|
            0 <= i < r@.len() ==> -WORLD_LIMIT_MILLI <= (#[trigger] r@[i]).x <= WORLD_LIMIT_MILLI
                && -WORLD_LIMIT_MILLI <= r@[i].y <= WORLD_LIMIT_MILLI,
{
    let mut out: Vec<PlayerState> = Vec::new();
    match find_zone_index(zones, zone_id) {
        Some(zi) => {
            let np = zones[zi].players.len();
            for i in 0..np
                invariant
                    zi < zones@.len(),
                    np == zones@[zi as int].players@.len(),
                    forall|z: int| 0 <= z < zones@.len() ==> (#[trigger] zones@[z]).wf(),
                    forall|t: int|
                        0 <= t < out@.len() ==> -WORLD_LIMIT_MILLI <= (#[trigger] out@[t]).x
                            <= WORLD_LIMIT_MILLI && -WORLD_LIMIT_MILLI <= out@[t].y
                            <= WORLD_LIMIT_MILLI,
            {
                if !zones[zi].players[i].is_disconnected {
                    proof {
                        assert(zones@[zi as int].players@[i as int].wf());
                    }
                    out.push(zones[zi].players[i].state);
                }
            }
        },
        None => {},
    }
    out
}

proof fn lemma_pending_push_due(q: Seq<RespawnEntry>, out: Seq<RespawnEntry>, e: RespawnEntry, dt_ms: u64)
    requires
        SpawnManager::spec_pending_match(q, out, dt_ms),
        e.timer_ms <= dt_ms,
    ensures
        SpawnManager::spec_pending_match(q.push(e), out, dt_ms),
    decreases q.len(),
{
    if q.len() == 0 {
        assert(q.push(e)[0] == e);
        assert(q.push(e).drop_first() =~= Seq::<RespawnEntry>::empty());
        assert(SpawnManager::spec_pending_match(Seq::<RespawnEntry>::empty(), out, dt_ms));
    } else {
        assert(q.push(e).drop_first() =~= q.drop_first().push(e));
        assert(q.push(e)[0] == q[0]);
        if q[0].timer_ms <= dt_ms {
            lemma_pending_push_due(q.drop_first(), out, e, dt_ms);
        } else {
            lemma_pending_push_due(q.drop_first(), out.drop_first(), e, dt_ms);
        }
    }
}

proof fn lemma_pending_push_waiting(
    q: Seq<RespawnEntry>,
    out: Seq<RespawnEntry>,
    e: RespawnEntry,
    w: RespawnEntry,
    dt_ms: u64,
)
    requires
        SpawnManager::spec_pending_match(q, out, dt_ms),
        e.timer_ms > dt_ms,
        w.npc_type == e.npc_type,
        w.zone_id@ == e.zone_id@,
        w.timer_ms == e.timer_ms - dt_ms,
    ensures
        SpawnManager::spec_pending_match(q.push(e), out.push(w), dt_ms),
    decreases q.len(),
{
    if q.len() == 0 {
        assert(q.push(e)[0] == e);
        assert(out.push(w)[0] == w);
        assert(q.push(e).drop_first() =~= Seq::<RespawnEntry>::empty());
        assert(out.push(w).drop_first() =~= Seq::<RespawnEntry>::empty());
        assert(SpawnManager::spec_pending_match(
            Seq::<RespawnEntry>::empty(),
            Seq::<RespawnEntry>::empty(),
            dt_ms,
        ));
    } else {
        assert(q.push(e).drop_first() =~= q.drop_first().push(e));
        assert(q.push(e)[0] == q[0]);
        if q[0].timer_ms <= dt_ms {
            lemma_pending_push_waiting(q.drop_first(), out, e, w, dt_ms);
        } else {
            assert(out.push(w)[0] == out[0]);
            assert(out.push(w).drop_first() =~= out.drop_first().push(w));
            lemma_pending_push_waiting(q.drop_first(), out.drop_first(), e, w, dt_ms);
        }
    }
}

} // verus!

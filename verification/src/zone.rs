//! Zones: a bounded region holding a set of players and resource nodes,
//! with connections to adjacent zones.

use vstd::prelude::*;

use crate::config;
use crate::node::ResourceNode;
use crate::player::{Player, WORLD_LIMIT_MILLI};
use crate::rng::{random_coord, random_in};
use crate::util::str_eq;

verus! {

pub struct ZoneBounds {
    /// Bounds, milli-units.
    pub x_min: i64,
    pub x_max: i64,
    pub y_min: i64,
    pub y_max: i64,
}

impl ZoneBounds {
    pub open spec fn wf(&self) -> bool {
        &&& -WORLD_LIMIT_MILLI <= self.x_min < self.x_max <= WORLD_LIMIT_MILLI
        &&& -WORLD_LIMIT_MILLI <= self.y_min < self.y_max <= WORLD_LIMIT_MILLI
    }
}

pub struct ZoneConfig {
    pub id: String,
    pub name: String,
    /// `"space"`, `"station"` or `"planet"`.
    pub zone_type: String,
    pub bounds: ZoneBounds,
    pub connections: Vec<String>,
    pub node_count: usize,
}

pub struct Zone {
    pub id: String,
    pub name: String,
    pub zone_type: String,
    pub bounds: ZoneBounds,
    pub connections: Vec<String>,
    pub players: Vec<Player>,
    pub resource_nodes: Vec<ResourceNode>,
}

impl Zone {
    /// The bounds are proper, players and nodes are well formed, and ids
    /// on each side are pairwise distinct.
    pub open spec fn wf(&self) -> bool {
        &&& self.bounds.wf()
        &&& forall|i: int| 0 <= i < self.players@.len() ==> (#[trigger] self.players@[i]).wf()
        &&& forall|i: int, j: int|
            0 <= i < j < self.players@.len() ==> (#[trigger] self.players@[i]).id != (
            #[trigger] self.players@[j]).id
        &&& forall|i: int| 0 <= i < self.resource_nodes@.len() ==> (
        #[trigger] self.resource_nodes@[i]).wf()
        &&& forall|i: int, j: int|
            0 <= i < j < self.resource_nodes@.len() ==> (#[trigger] self.resource_nodes@[i]).id
                != (#[trigger] self.resource_nodes@[j]).id
    }

    /// Create a zone from its configuration, spawning `node_count` random
    /// resource nodes with ids starting at `first_node_id`.
    pub fn new(config: ZoneConfig, first_node_id: u32) -> (r: Zone)
        requires
            config.bounds.wf(),
            first_node_id + config.node_count <= u32::MAX,
        ensures
            r.wf(),
            r.id == config.id,
            r.name == config.name,
            r.zone_type == config.zone_type,
            r.connections@ == config.connections@,
            r.players@.len() == 0,
            r.resource_nodes@.len() == config.node_count,
    {
        let mut nodes: Vec<ResourceNode> = Vec::new();
        let mut k: usize = 0;
        while k < config.node_count
            invariant
                k <= config.node_count,
                first_node_id + config.node_count <= u32::MAX,
                config.bounds.wf(),
                nodes@.len() == k,
                forall|i: int| 0 <= i < k ==> (#[trigger] nodes@[i]).wf(),
                forall|i: int|
                    0 <= i < k ==> (#[trigger] nodes@[i]).id == first_node_id + i,
            decreases config.node_count - k,
        {
            let x = random_coord(config.bounds.x_min, config.bounds.x_max);
            let y = random_coord(config.bounds.y_min, config.bounds.y_max);
            let quality = random_in(1, 6) as u32;
            let kind = random_in(0, 5);
            let resource_type = if kind == 0 {
                "iron"
            } else if kind == 1 {
                "copper"
            } else if kind == 2 {
                "silicon"
            } else if kind == 3 {
                "carbon"
            } else {
                "titanium"
            };
            let node = ResourceNode::new(
                first_node_id + k as u32,
                resource_type.to_owned(),
                x,
                y,
                quality,
            );
            nodes.push(node);
            k = k + 1;
        }
        Zone {
            id: config.id,
            name: config.name,
            zone_type: config.zone_type,
            bounds: config.bounds,
            connections: config.connections,
            players: Vec::new(),
            resource_nodes: nodes,
        }
    }

    /// Index of the player with the given id, if present.
    pub fn player_index(&self, player_id: u32) -> (r: Option<usize>)
        ensures
            match r {
                Some(i) => {
                    &&& i < self.players@.len()
                    &&& self.players@[i as int].id == player_id
                    &&& forall|j: int| 0 <= j < i ==> (#[trigger] self.players@[j]).id != player_id
                },
                None => forall|j: int|
                    0 <= j < self.players@.len() ==> (#[trigger] self.players@[j]).id != player_id,
            },
    {
        let n = self.players.len();
        for i in 0..n
            invariant
                n == self.players@.len(),
                forall|j: int| 0 <= j < i ==> (#[trigger] self.players@[j]).id != player_id,
        {
            if self.players[i].id == player_id {
                return Some(i);
            }
        }
        None
    }

    /// Index of the node with the given id, if present.
    pub fn node_index(&self, node_id: u32) -> (r: Option<usize>)
        ensures
            match r {
                Some(i) => {
                    &&& i < self.resource_nodes@.len()
                    &&& self.resource_nodes@[i as int].id == node_id
                    &&& forall|j: int|
                        0 <= j < i ==> (#[trigger] self.resource_nodes@[j]).id != node_id
                },
                None => forall|j: int|
                    0 <= j < self.resource_nodes@.len() ==> (
                    #[trigger] self.resource_nodes@[j]).id != node_id,
            },
    {
        let n = self.resource_nodes.len();
        for i in 0..n
            invariant
                n == self.resource_nodes@.len(),
                forall|j: int| 0 <= j < i ==> (#[trigger] self.resource_nodes@[j]).id != node_id,
        {
            if self.resource_nodes[i].id == node_id {
                return Some(i);
            }
        }
        None
    }

    /// Add a player, stamping the zone id; a player with the same id must
    /// not already be present.
    pub fn add_player(&mut self, player: Player)
        requires
            old(self).wf(),
            player.wf(),
            forall|j: int|
                0 <= j < old(self).players@.len() ==> (#[trigger] old(self).players@[j]).id
                    != player.id,
        ensures
            final(self).wf(),
            final(self).players@.len() == old(self).players@.len() + 1,
            final(self).players@[old(self).players@.len() as int].id == player.id,
            final(self).players@[old(self).players@.len() as int].state == player.state,
            final(self).players@[old(self).players@.len() as int].is_disconnected
                == player.is_disconnected,
            forall|j: int|
                0 <= j < old(self).players@.len() ==> #[trigger] final(self).players@[j] == old(
                    self,
                ).players@[j],
            final(self).resource_nodes@ == old(self).resource_nodes@,
            final(self).id == old(self).id,
            final(self).bounds == old(self).bounds,
            final(self).connections@ == old(self).connections@,
            final(self).zone_type == old(self).zone_type,
    {
        let mut player = player;
        player.zone_id = self.id.clone();
        let ghost before = self.players@;
        self.players.push(player);
        proof {
            assert forall|i: int, j: int|
                0 <= i < j < self.players@.len() implies (#[trigger] self.players@[i]).id != (
            #[trigger] self.players@[j]).id by {
                if j < before.len() {
                    assert(self.players@[i] == before[i]);
                    assert(self.players@[j] == before[j]);
                } else {
                    assert(self.players@[i] == before[i]);
                }
            }
        }
    }

    /// Remove and return the player with the given id; mining stops.
    pub fn remove_player(&mut self, player_id: u32) -> (r: Option<Player>)
        requires
            old(self).wf(),
        ensures
            final(self).wf(),
            r is Some <==> (exists|j: int|
                0 <= j < old(self).players@.len() && (#[trigger] old(self).players@[j]).id
                    == player_id),
            r is None ==> *final(self) == *old(self),
            r is Some ==> {
                &&& final(self).players@.len() == old(self).players@.len() - 1
                &&& r->0.id == player_id
                &&& r->0.wf()
                &&& r->0.mining_node_id is None
                &&& forall|j: int|
                    0 <= j < final(self).players@.len() ==> (#[trigger] final(self).players@[j]).id
                        != player_id
            },
            final(self).resource_nodes@ == old(self).resource_nodes@,
            final(self).id == old(self).id,
            final(self).bounds == old(self).bounds,
            final(self).connections@ == old(self).connections@,
            final(self).zone_type == old(self).zone_type,
    {
        match self.player_index(player_id) {
            Some(i) => {
                let ghost before = self.players@;
                proof {
                    before.remove_ensures(i as int);
                }
                let mut p = self.players.remove(i);
                p.mining_node_id = None;
                proof {
                    assert forall|j: int|
                        0 <= j < self.players@.len() implies (#[trigger] self.players@[j]).id
                        != player_id by {
                        if j < i {
                            assert(self.players@[j] == before[j]);
                        } else {
                            assert(self.players@[j] == before[j + 1]);
                        }
                    }
                }
                Some(p)
            },
            None => None,
        }
    }

    /// Add a resource node; its id must be new.
    pub fn add_node(&mut self, node: ResourceNode)
        requires
            old(self).wf(),
            node.wf(),
            forall|j: int|
                0 <= j < old(self).resource_nodes@.len() ==> (
                #[trigger] old(self).resource_nodes@[j]).id != node.id,
        ensures
            final(self).wf(),
            final(self).resource_nodes@ == old(self).resource_nodes@.push(node),
            final(self).players@ == old(self).players@,
            final(self).id == old(self).id,
            final(self).bounds == old(self).bounds,
            final(self).connections@ == old(self).connections@,
            final(self).zone_type == old(self).zone_type,
    {
        let ghost before = self.resource_nodes@;
        self.resource_nodes.push(node);
        proof {
            assert forall|i: int, j: int|
                0 <= i < j < self.resource_nodes@.len() implies (
            #[trigger] self.resource_nodes@[i]).id != (#[trigger] self.resource_nodes@[j]).id by {
                if j < before.len() {
                    assert(self.resource_nodes@[i] == before[i]);
                    assert(self.resource_nodes@[j] == before[j]);
                } else {
                    assert(self.resource_nodes@[i] == before[i]);
                }
            }
        }
    }

    /// Refill due nodes; returns the ids of the nodes that respawned.
    pub fn tick_respawns(&mut self, now_ms: u64) -> (r: Vec<u32>)
        requires
            old(self).wf(),
        ensures
            final(self).wf(),
            final(self).players@ == old(self).players@,
            final(self).resource_nodes@.len() == old(self).resource_nodes@.len(),
            final(self).id == old(self).id,
            final(self).bounds == old(self).bounds,
            final(self).connections@ == old(self).connections@,
            final(self).zone_type == old(self).zone_type,
            forall|i: int|
                0 <= i < old(self).resource_nodes@.len() ==> (
                #[trigger] final(self).resource_nodes@[i]).id == old(self).resource_nodes@[i].id
                    && (final(self).resource_nodes@[i].current_amount == old(
                    self,
                ).resource_nodes@[i].current_amount || final(self).resource_nodes@[i].current_amount
                    == final(self).resource_nodes@[i].total_amount),
    {
        let mut respawned: Vec<u32> = Vec::new();
        let n = self.resource_nodes.len();
        for i in 0..n
            invariant
                n == self.resource_nodes@.len(),
                n == old(self).resource_nodes@.len(),
                self.wf(),
                self.players@ == old(self).players@,
                self.id == old(self).id,
                self.bounds == old(self).bounds,
                self.connections@ == old(self).connections@,
                self.zone_type == old(self).zone_type,
                forall|t: int|
                    0 <= t < n ==> (#[trigger] self.resource_nodes@[t]).id == old(
                        self,
                    ).resource_nodes@[t].id && (self.resource_nodes@[t].current_amount == old(
                        self,
                    ).resource_nodes@[t].current_amount
                        || self.resource_nodes@[t].current_amount
                        == self.resource_nodes@[t].total_amount),
        {
            let node = &mut self.resource_nodes[i];
            let did = node.tick_respawn(now_ms);
            if did {
                let id = self.resource_nodes[i].id;
                respawned.push(id);
            }
        }
        respawned
    }

    /// A random position inside the bounds, with zero velocity implied.
    pub fn random_spawn_position(&self) -> (r: (i64, i64))
        requires
            self.bounds.wf(),
        ensures
            self.bounds.x_min <= r.0 < self.bounds.x_max,
            self.bounds.y_min <= r.1 < self.bounds.y_max,
    {
        let x = random_coord(self.bounds.x_min, self.bounds.x_max);
        let y = random_coord(self.bounds.y_min, self.bounds.y_max);
        (x, y)
    }

    /// Whether a position lies outside the zone's bounds.
    pub fn is_out_of_bounds(&self, x: i64, y: i64) -> (r: bool)
        ensures
            r == (x < self.bounds.x_min || x > self.bounds.x_max || y < self.bounds.y_min || y
                > self.bounds.y_max),
    {
        x < self.bounds.x_min || x > self.bounds.x_max || y < self.bounds.y_min || y
            > self.bounds.y_max
    }

    /// Whether the zone's connection list names the given zone.
    pub fn is_connected_to(&self, zone_id: &str) -> (r: bool)
        ensures
            r == (exists|i: int|
                0 <= i < self.connections@.len() && (#[trigger] self.connections@[i])@ == zone_id@),
    {
        let n = self.connections.len();
        for i in 0..n
            invariant
                n == self.connections@.len(),
                forall|j: int| 0 <= j < i ==> (#[trigger] self.connections@[j])@ != zone_id@,
        {
            if str_eq(self.connections[i].as_str(), zone_id) {
                return true;
            }
        }
        false
    }
}

/// The starting galaxy: four zones with fixed ids, bounds and
/// connections, and randomly spawned resource nodes.
pub fn create_sol_proxima() -> (r: Vec<Zone>)
    ensures
        r@.len() == 4,
        forall|i: int| 0 <= i < r@.len() ==> (#[trigger] r@[i]).wf(),
        r@[0].id@ == "uurf-orbit"@,
        r@[1].id@ == "uurf-hub"@,
        r@[2].id@ == "uurf-surface"@,
        r@[3].id@ == "asteroid-belt-alpha"@,
        r@[0].zone_type@ == "space"@,
        r@[1].zone_type@ == "station"@,
        r@[2].zone_type@ == "planet"@,
        r@[3].zone_type@ == "space"@,
{
    let mut zones: Vec<Zone> = Vec::new();

    let mut connections: Vec<String> = Vec::new();
    connections.push("uurf-hub".to_owned());
    connections.push("uurf-surface".to_owned());
    connections.push("asteroid-belt-alpha".to_owned());
    zones.push(
        Zone::new(
            ZoneConfig {
                id: "uurf-orbit".to_owned(),
                name: "Uurf Orbit".to_owned(),
                zone_type: "space".to_owned(),
                bounds: ZoneBounds {
                    x_min: -2_500_000,
                    x_max: 2_500_000,
                    y_min: -2_500_000,
                    y_max: 2_500_000,
                },
                connections,
                node_count: config::NODES_PER_ZONE_DEFAULT,
            },
            1,
        ),
    );

    let mut connections: Vec<String> = Vec::new();
    connections.push("uurf-orbit".to_owned());
    zones.push(
        Zone::new(
            ZoneConfig {
                id: "uurf-hub".to_owned(),
                name: "Uurf Central Hub".to_owned(),
                zone_type: "station".to_owned(),
                bounds: ZoneBounds {
                    x_min: -1_000_000,
                    x_max: 1_000_000,
                    y_min: -1_000_000,
                    y_max: 1_000_000,
                },
                connections,
                node_count: 0,
            },
            101,
        ),
    );

    let mut connections: Vec<String> = Vec::new();
    connections.push("uurf-orbit".to_owned());
    zones.push(
        Zone::new(
            ZoneConfig {
                id: "uurf-surface".to_owned(),
                name: "Uurf Surface - Temperate Plains".to_owned(),
                zone_type: "planet".to_owned(),
                bounds: ZoneBounds {
                    x_min: -2_000_000,
                    x_max: 2_000_000,
                    y_min: -2_000_000,
                    y_max: 2_000_000,
                },
                connections,
                node_count: config::NODES_PER_ZONE_DEFAULT,
            },
            201,
        ),
    );

    let mut connections: Vec<String> = Vec::new();
    connections.push("uurf-orbit".to_owned());
    zones.push(
        Zone::new(
            ZoneConfig {
                id: "asteroid-belt-alpha".to_owned(),
                name: "Asteroid Belt Alpha".to_owned(),
                zone_type: "space".to_owned(),
                bounds: ZoneBounds {
                    x_min: -3_000_000,
                    x_max: 3_000_000,
                    y_min: -3_000_000,
                    y_max: 3_000_000,
                },
                connections,
                node_count: config::NODES_PER_ZONE_ASTEROID_BELT,
            },
            301,
        ),
    );

    zones
}

} // verus!

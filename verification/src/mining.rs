//! Mining: starting a mining session against a node, and the per-tick
//! extraction for every active miner in a zone.
//!
//! Range is the Chebyshev distance in milli-units; amounts are in
//! centi-units.

use vstd::prelude::*;

use crate::config;
use crate::fixed::{chebyshev_distance, spec_chebyshev};
use crate::node::ResourceNode;
use crate::player::Player;
use crate::zone::Zone;

verus! {

/// Progress report for one miner's tick.
pub struct MiningUpdate {
    pub node_id: u32,
    /// Amount credited this tick, centi-units.
    pub amount_extracted_centi: u64,
    /// Amount left in the node, centi-units.
    pub remaining_centi: u64,
    pub resource_type: String,
    pub inventory_total: u32,
}

/// Outcome of one miner's tick: a progress update, a depletion notice,
/// or a silent stop.
pub struct MiningTickResult {
    pub player_id: u32,
    pub update: Option<MiningUpdate>,
    pub depleted: Option<u32>,
    pub stopped: bool,
}

/// Why a mining start is refused, mirrored by the returned message.
pub open spec fn spec_start_mining_ok(zone: Zone, player_id: u32, node_id: u32) -> bool {
    &&& (exists|ni: int|
        0 <= ni < zone.resource_nodes@.len() && (#[trigger] zone.resource_nodes@[ni]).id == node_id
            && zone.resource_nodes@[ni].current_amount > 0 && (exists|pi: int|
            0 <= pi < zone.players@.len() && (#[trigger] zone.players@[pi]).id == player_id
                && spec_chebyshev(
                zone.players@[pi].state.x as int,
                zone.players@[pi].state.y as int,
                zone.resource_nodes@[ni].x as int,
                zone.resource_nodes@[ni].y as int,
            ) <= config::MINING_RANGE_MILLI && zone.players@[pi].inventory.spec_total()
                < zone.players@[pi].inventory.max_capacity))
}

/// Start mining: the node must exist with something left, the player must
/// exist within range with inventory head-room.  On success the player's
/// mining target is set; on failure nothing changes and the reason is
/// returned.
pub fn start_mining_in_zone(zone: &mut Zone, player_id: u32, node_id: u32) -> (r: Option<String>)
    requires
        old(zone).wf(),
    ensures
        final(zone).wf(),
        r is None <==> spec_start_mining_ok(*old(zone), player_id, node_id),
        r is Some ==> *final(zone) == *old(zone),
        r is None ==> {
            &&& final(zone).players@.len() == old(zone).players@.len()
            &&& final(zone).resource_nodes@ == old(zone).resource_nodes@
            &&& exists|pi: int|
                0 <= pi < final(zone).players@.len() && (#[trigger] final(zone).players@[pi]).id
                    == player_id && final(zone).players@[pi].mining_node_id == Some(node_id)
                    && (forall|j: int|
                    0 <= j < final(zone).players@.len() && j != pi
                        ==> #[trigger] final(zone).players@[j] == old(zone).players@[j])
        },
{
    let ni = match zone.node_index(node_id) {
        Some(i) => i,
        None => {
            return Some("Node not found".to_owned());
        },
    };
    if !(zone.resource_nodes[ni].current_amount > 0) {
        return Some("Node is depleted".to_owned());
    }
    let nx = zone.resource_nodes[ni].x;
    let ny = zone.resource_nodes[ni].y;

    let pi = match zone.player_index(player_id) {
        Some(i) => i,
        None => {
            return Some("Player not found".to_owned());
        },
    };
    let px = zone.players[pi].state.x;
    let py = zone.players[pi].state.y;
    proof {
        assert(zone.players@[pi as int].wf());
        assert(zone.resource_nodes@[ni as int].wf());
    }
    let node_in_world = -1_000_000_000_000 <= nx && nx <= 1_000_000_000_000 && -1_000_000_000_000
        <= ny && ny <= 1_000_000_000_000;
    if !node_in_world {
        return Some("Node not found".to_owned());
    }
    let dist = chebyshev_distance(px, py, nx, ny);
    if dist > config::MINING_RANGE_MILLI as u64 {
        return Some("Too far from node".to_owned());
    }

    if zone.players[pi].inventory_total() >= zone.players[pi].inventory.max_capacity {
        return Some("Inventory full".to_owned());
    }
    let p = &mut zone.players[pi];
    p.mining_node_id = Some(node_id);
    None
}

/// Stop a player's mining session.
pub fn stop_mining(player: &mut Player)
    requires
        old(player).wf(),
    ensures
        final(player).wf(),
        final(player).mining_node_id is None,
        final(player).state == old(player).state,
        final(player).inventory == old(player).inventory,
        final(player).id == old(player).id,
        final(player).zone_id == old(player).zone_id,
        final(player).is_docked == old(player).is_docked,
        final(player).is_disconnected == old(player).is_disconnected,
    {
    player.mining_node_id = None;
}

/// A connected player with a mining target.
pub open spec fn spec_active_miner(p: Player) -> bool {
    !p.is_disconnected && p.mining_node_id is Some
}

/// The ids of the active miners, in player order.
pub open spec fn spec_miner_ids(players: Seq<Player>) -> Seq<u32>
    decreases players.len(),
{
    if players.len() == 0 {
        Seq::empty()
    } else {
        let rest = spec_miner_ids(players.drop_first());
        if spec_active_miner(players[0]) {
            seq![players[0].id] + rest
        } else {
            rest
        }
    }
}

/// The reported miner ids, in report order.
pub open spec fn spec_result_ids(rs: Seq<MiningTickResult>) -> Seq<u32> {
    rs.map_values(|r: MiningTickResult| r.player_id)
}

proof fn lemma_miner_ids_push(players: Seq<Player>, p: Player)
    ensures
        spec_miner_ids(players.push(p)) == spec_miner_ids(players) + (if spec_active_miner(p) {
            seq![p.id]
        } else {
            Seq::<u32>::empty()
        }),
    decreases players.len(),
{
    let tail = if spec_active_miner(p) {
        seq![p.id]
    } else {
        Seq::<u32>::empty()
    };
    if players.len() == 0 {
        assert(players.push(p)[0] == p);
        assert(players.push(p).drop_first() =~= Seq::<Player>::empty());
        assert(spec_miner_ids(Seq::<Player>::empty()) =~= Seq::<u32>::empty());
        assert(spec_miner_ids(players) =~= Seq::<u32>::empty());
        assert(spec_miner_ids(players.push(p)) =~= spec_miner_ids(players) + tail);
    } else {
        assert(players.push(p).drop_first() =~= players.drop_first().push(p));
        lemma_miner_ids_push(players.drop_first(), p);
        assert(players.push(p)[0] == players[0]);
        if spec_active_miner(players[0]) {
            assert(spec_miner_ids(players.push(p)) == seq![players[0].id] + spec_miner_ids(
                players.drop_first().push(p),
            ));
            assert(seq![players[0].id] + (spec_miner_ids(players.drop_first()) + tail)
                =~= (seq![players[0].id] + spec_miner_ids(players.drop_first())) + tail);
        }
    }
}

/// The player `mi` is connected and mining, and nobody else is.
pub open spec fn spec_lone_miner(players: Seq<Player>, mi: int) -> bool {
    &&& 0 <= mi < players.len()
    &&& spec_active_miner(players[mi])
    &&& forall|j: int|
        0 <= j < players.len() && j != mi ==> !spec_active_miner(#[trigger] players[j])
}

/// The node at `ni` carries id `nid` and passes every re-validation
/// check for the miner at `pi`: something left, a position inside the
/// world, within mining range, and inventory head-room.
pub open spec fn spec_extract_ok(z: Zone, pi: int, nid: u32, ni: int) -> bool {
    let p = z.players@[pi];
    let n = z.resource_nodes@[ni];
    &&& 0 <= ni < z.resource_nodes@.len()
    &&& n.id == nid
    &&& n.current_amount > 0
    &&& -1_000_000_000_000 <= n.x <= 1_000_000_000_000
    &&& -1_000_000_000_000 <= n.y <= 1_000_000_000_000
    &&& spec_chebyshev(p.state.x as int, p.state.y as int, n.x as int, n.y as int)
        <= config::MINING_RANGE_MILLI
    &&& p.inventory.spec_total() < p.inventory.max_capacity
}

/// The exact outcome of one extraction by the miner at `pi` against the
/// node at `ni`: the raw amount is the extraction rate capped by the
/// node, what fits the inventory is credited, and a drained node ends
/// the session with a depletion notice.
pub open spec fn spec_extract_outcome(zo: Zone, zn: Zone, r: MiningTickResult, pi: int, ni: int) -> bool {
    let p = zo.players@[pi];
    let n = zo.resource_nodes@[ni];
    let rate = config::BASE_MINING_RATE_CENTI * n.quality;
    let raw: int = if n.current_amount < rate {
        n.current_amount as int
    } else {
        rate as int
    };
    let headroom: int = (p.inventory.max_capacity - p.inventory.spec_total()) * 100;
    let credited: int = if raw < headroom {
        raw
    } else {
        headroom
    };
    let whole: int = if credited / 100 > 0 {
        credited / 100
    } else {
        0
    };
    let remaining: int = n.current_amount - raw;
    &&& !r.stopped
    &&& r.player_id == p.id
    &&& r.update is Some
    &&& r.update->0.node_id == n.id
    &&& r.update->0.amount_extracted_centi == credited
    &&& r.update->0.remaining_centi == remaining
    &&& r.update->0.resource_type@ == n.resource_type@
    &&& r.update->0.inventory_total == p.inventory.spec_total() + whole
    &&& r.depleted == (if remaining == 0 {
        Some(n.id)
    } else {
        None::<u32>
    })
    &&& zn.resource_nodes@[ni].current_amount == remaining
    &&& forall|j: int|
        0 <= j < zo.resource_nodes@.len() && j != ni ==> #[trigger] zn.resource_nodes@[j]
            == zo.resource_nodes@[j]
    &&& zn.players@[pi].inventory.spec_total() == p.inventory.spec_total() + whole
    &&& (whole > 0 ==> zn.players@[pi].inventory.spec_get(n.resource_type@)
        == p.inventory.spec_get(n.resource_type@) + whole)
    &&& zn.players@[pi].mining_node_id == (if remaining > 0 {
        Some(n.id)
    } else {
        None::<u32>
    })
}

/// What one tick does when `mi` is the only active miner: a single
/// report, a silent stop when some re-validation check fails, the exact
/// extraction otherwise.
pub open spec fn spec_lone_tick_outcome(zo: Zone, zn: Zone, rs: Seq<MiningTickResult>, mi: int) -> bool {
    let p = zo.players@[mi];
    let nid = p.mining_node_id->0;
    &&& rs.len() == 1
    &&& if exists|ni: int| spec_extract_ok(zo, mi, nid, ni) {
        spec_extract_outcome(zo, zn, rs[0], mi, choose|ni: int| spec_extract_ok(zo, mi, nid, ni))
    } else {
        &&& rs[0].stopped
        &&& rs[0].player_id == p.id
        &&& zn.players@[mi].mining_node_id is None
        &&& zn.players@[mi].inventory == p.inventory
        &&& zn.resource_nodes@ == zo.resource_nodes@
    }
}

/// One mining tick for every active miner in the zone: each miner's
/// target is re-validated (the node exists with something left, the miner
/// is in range with head-room), the extraction rate is ten centi-units
/// per quality point, and what fits is credited to the miner.  A failed
/// check stops that miner silently; a drained node reports depletion.
#[verifier::rlimit(80)]
pub fn process_mining_tick(zone: &mut Zone, now_ms: u64) -> (results: Vec<MiningTickResult>)
    requires
        old(zone).wf(),
    ensures
        final(zone).wf(),
        final(zone).players@.len() == old(zone).players@.len(),
        final(zone).resource_nodes@.len() == old(zone).resource_nodes@.len(),
        final(zone).id == old(zone).id,
        final(zone).bounds == old(zone).bounds,
        final(zone).connections@ == old(zone).connections@,
        final(zone).zone_type == old(zone).zone_type,
        // One report per active miner, in player order.
        spec_result_ids(results@) == spec_miner_ids(old(zone).players@),
        // A report is a stop exactly when it carries no update, and a
        // depletion notice always rides an update.
        forall|k: int|
            0 <= k < results@.len() ==> ((#[trigger] results@[k]).stopped <==> results@[k].update
                is None),
        forall|k: int|
            0 <= k < results@.len() ==> ((#[trigger] results@[k]).depleted is Some
                ==> results@[k].update is Some),
        // A lone miner's tick is pinned exactly.
        forall|mi: int|
            #[trigger] spec_lone_miner(old(zone).players@, mi) ==> spec_lone_tick_outcome(
                *old(zone),
                *final(zone),
                results@,
                mi,
            ),
        // Players keep their identity and position; only mining state and
        // inventory move.
        forall|i: int|
            0 <= i < old(zone).players@.len() ==> {
                let po = #[trigger] old(zone).players@[i];
                let pn = final(zone).players@[i];
                &&& pn.id == po.id
                &&& pn.state == po.state
                &&& pn.zone_id == po.zone_id
                &&& pn.is_docked == po.is_docked
                &&& pn.is_disconnected == po.is_disconnected
                &&& pn.inventory.omen_balance == po.inventory.omen_balance
                &&& pn.inventory.max_capacity == po.inventory.max_capacity
            },
        // Nodes keep their identity; amounts only fall.
        forall|i: int|
            0 <= i < old(zone).resource_nodes@.len() ==> {
                let no = #[trigger] old(zone).resource_nodes@[i];
                let nn = final(zone).resource_nodes@[i];
                &&& nn.id == no.id
                &&& nn.total_amount == no.total_amount
                &&& nn.quality == no.quality
                &&& nn.current_amount <= no.current_amount
            },
{
    let mut results: Vec<MiningTickResult> = Vec::new();
    let np = zone.players.len();
    for pi in 0..np
        invariant
            np == zone.players@.len(),
            np == old(zone).players@.len(),
            old(zone).wf(),
            zone.wf(),
            zone.resource_nodes@.len() == old(zone).resource_nodes@.len(),
            zone.id == old(zone).id,
            zone.bounds == old(zone).bounds,
            zone.connections@ == old(zone).connections@,
            zone.zone_type == old(zone).zone_type,
            forall|i: int| pi <= i < np ==> #[trigger] zone.players@[i] == old(zone).players@[i],
            spec_result_ids(results@) == spec_miner_ids(old(zone).players@.take(pi as int)),
            forall|k: int|
                0 <= k < results@.len() ==> ((#[trigger] results@[k]).stopped
                    <==> results@[k].update is None),
            forall|k: int|
                0 <= k < results@.len() ==> ((#[trigger] results@[k]).depleted is Some
                    ==> results@[k].update is Some),
            forall|mi: int|
                #[trigger] spec_lone_miner(old(zone).players@, mi) ==> if pi as int <= mi {
                    results@.len() == 0 && zone.players@ == old(zone).players@
                        && zone.resource_nodes@ == old(zone).resource_nodes@
                } else {
                    spec_lone_tick_outcome(*old(zone), *zone, results@, mi)
                },
            forall|i: int|
                0 <= i < np ==> {
                    let po = #[trigger] old(zone).players@[i];
                    let pn = zone.players@[i];
                    &&& pn.id == po.id
                    &&& pn.state == po.state
                    &&& pn.zone_id == po.zone_id
                    &&& pn.is_docked == po.is_docked
                    &&& pn.is_disconnected == po.is_disconnected
                    &&& pn.inventory.omen_balance == po.inventory.omen_balance
                    &&& pn.inventory.max_capacity == po.inventory.max_capacity
                },
            forall|i: int|
                0 <= i < old(zone).resource_nodes@.len() ==> {
                    let no = #[trigger] old(zone).resource_nodes@[i];
                    let nn = zone.resource_nodes@[i];
                    &&& nn.id == no.id
                    &&& nn.total_amount == no.total_amount
                    &&& nn.quality == no.quality
                    &&& nn.current_amount <= no.current_amount
                },
    {
        let skip = zone.players[pi].is_disconnected || match zone.players[pi].mining_node_id {
            Some(_) => false,
            None => true,
        };
        proof {
            assert(old(zone).players@.take(pi as int + 1) =~= old(zone).players@.take(
                pi as int,
            ).push(old(zone).players@[pi as int]));
            lemma_miner_ids_push(
                old(zone).players@.take(pi as int),
                old(zone).players@[pi as int],
            );
        }
        if !skip {
            let node_id = match zone.players[pi].mining_node_id {
                Some(id) => id,
                None => 0,
            };
            let player_id = zone.players[pi].id;
            let px = zone.players[pi].state.x;
            let py = zone.players[pi].state.y;
            let inv_total = zone.players[pi].inventory_total();

            let ni_opt = zone.node_index(node_id);
            let mut stop = false;
            let mut ni: usize = 0;
            match ni_opt {
                Some(i) => {
                    ni = i;
                },
                None => {
                    stop = true;
                },
            }
            if !stop {
                proof {
                    assert(zone.resource_nodes@[ni as int].wf());
                }
                if zone.resource_nodes[ni].current_amount == 0 {
                    stop = true;
                } else {
                    let nx = zone.resource_nodes[ni].x;
                    let nyy = zone.resource_nodes[ni].y;
                    let in_world = -1_000_000_000_000 <= nx && nx <= 1_000_000_000_000
                        && -1_000_000_000_000 <= nyy && nyy <= 1_000_000_000_000;
                    if !in_world {
                        stop = true;
                    } else {
                        let dist = chebyshev_distance(px, py, nx, nyy);
                        if dist > config::MINING_RANGE_MILLI as u64 {
                            stop = true;
                        } else if inv_total >= zone.players[pi].inventory.max_capacity {
                            stop = true;
                        }
                    }
                }
            }

            if stop {
                let p = &mut zone.players[pi];
                p.mining_node_id = None;
                results.push(
                    MiningTickResult { player_id, update: None, depleted: None, stopped: true },
                );
                proof {
                    if spec_lone_miner(old(zone).players@, pi as int) {
                        assert forall|nj: int| !spec_extract_ok(
                            *old(zone),
                            pi as int,
                            node_id,
                            nj,
                        ) by {
                            if spec_extract_ok(*old(zone), pi as int, node_id, nj) {
                                if ni_opt is None {
                                } else {
                                    if nj != ni as int {
                                        assert(old(zone).resource_nodes@[nj].id == old(
                                            zone,
                                        ).resource_nodes@[ni as int].id);
                                    }
                                }
                            }
                        }
                        assert(spec_lone_tick_outcome(*old(zone), *zone, results@, pi as int));
                    }
                }
            } else {
                let quality = zone.resource_nodes[ni].quality;
                let extract_rate = config::BASE_MINING_RATE_CENTI * quality as u64;
                let node = &mut zone.resource_nodes[ni];
                let raw_extracted = node.extract(extract_rate, now_ms);
                let remaining = zone.resource_nodes[ni].current_amount;
                let still_available = remaining > 0;
                let resource_type = zone.resource_nodes[ni].resource_type.clone();

                let p = &mut zone.players[pi];
                let actual_added = p.add_resource(resource_type.as_str(), raw_extracted);
                let new_total = zone.players[pi].inventory_total();

                let depleted = if still_available {
                    None
                } else {
                    let p2 = &mut zone.players[pi];
                    p2.mining_node_id = None;
                    Some(node_id)
                };
                results.push(
                    MiningTickResult {
                        player_id,
                        update: Some(
                            MiningUpdate {
                                node_id,
                                amount_extracted_centi: actual_added,
                                remaining_centi: remaining,
                                resource_type,
                                inventory_total: new_total,
                            },
                        ),
                        depleted,
                        stopped: false,
                    },
                );
                proof {
                    if spec_lone_miner(old(zone).players@, pi as int) {
                        assert(spec_extract_ok(*old(zone), pi as int, node_id, ni as int));
                        assert forall|nj: int| spec_extract_ok(
                            *old(zone),
                            pi as int,
                            node_id,
                            nj,
                        ) implies nj == ni as int by {
                            if nj != ni as int {
                                assert(old(zone).resource_nodes@[nj].id == old(
                                    zone,
                                ).resource_nodes@[ni as int].id);
                            }
                        }
                        let ch = choose|nj: int|
                            spec_extract_ok(*old(zone), pi as int, node_id, nj);
                        assert(spec_extract_ok(*old(zone), pi as int, node_id, ch));
                        assert(ch == ni as int);
                        assert(spec_extract_outcome(
                            *old(zone),
                            *zone,
                            results@[0],
                            pi as int,
                            ni as int,
                        ));
                        assert(spec_lone_tick_outcome(*old(zone), *zone, results@, pi as int));
                    }
                }
            }
            proof {
                assert(spec_result_ids(results@) =~= spec_miner_ids(old(zone).players@.take(
                    pi as int + 1,
                )));
            }
        } else {
            proof {
                assert(spec_result_ids(results@) =~= spec_miner_ids(old(zone).players@.take(
                    pi as int + 1,
                )));
            }
        }
    }
    proof {
        assert(old(zone).players@.take(np as int) =~= old(zone).players@);
    }
    results
}

} // verus!

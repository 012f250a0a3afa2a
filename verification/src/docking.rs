//! Docking: stations, docking range checks, and station services.

use vstd::prelude::*;

use crate::config;
use crate::fixed::{dist_sq, spec_dist_sq};
use crate::player::{Player, WORLD_LIMIT_MILLI};
use crate::util::str_eq;

verus! {

#[derive(Clone, Copy, PartialEq, Eq, Structural, Debug)]
pub enum StationService {
    Market,
    Repair,
    Refuel,
    Equipment,
    Quests,
}

pub struct Station {
    pub id: String,
    pub name: String,
    /// Position, milli-units.
    pub x: i64,
    pub y: i64,
    pub zone_id: String,
    pub services: Vec<StationService>,
}

impl Clone for Station {
    fn clone(&self) -> (r: Self)
        ensures
            r.id == self.id,
            r.name == self.name,
            r.x == self.x,
            r.y == self.y,
            r.zone_id == self.zone_id,
            r.services@ == self.services@,
    {
        Station {
            id: self.id.clone(),
            name: self.name.clone(),
            x: self.x,
            y: self.y,
            zone_id: self.zone_id.clone(),
            services: self.services.clone(),
        }
    }
}

pub struct DockingSystem {
    pub stations: Vec<Station>,
}

impl DockingSystem {
    /// Every station sits inside the world, and station ids are
    /// pairwise distinct.
    pub open spec fn wf(&self) -> bool {
        &&& forall|i: int|
            0 <= i < self.stations@.len() ==> -WORLD_LIMIT_MILLI <= (
            #[trigger] self.stations@[i]).x <= WORLD_LIMIT_MILLI && -WORLD_LIMIT_MILLI
                <= self.stations@[i].y <= WORLD_LIMIT_MILLI
        &&& forall|i: int, j: int|
            0 <= i < j < self.stations@.len() ==> (#[trigger] self.stations@[i]).id@ != (
            #[trigger] self.stations@[j]).id@
    }

    /// The fixed station table.
    pub fn new() -> (r: Self)
        ensures
            r.wf(),
            r.stations@.len() == 4,
            r.stations@[0].id@ == "sol_1_station"@,
            r.stations@[1].id@ == "sol_2_station"@,
            r.stations@[2].id@ == "proxima_1_station"@,
            r.stations@[3].id@ == "belt_1_station"@,
    {
        let mut stations: Vec<Station> = Vec::new();

        let mut services: Vec<StationService> = Vec::new();
        services.push(StationService::Market);
        services.push(StationService::Repair);
        services.push(StationService::Equipment);
        services.push(StationService::Quests);
        stations.push(
            Station {
                id: "sol_1_station".to_owned(),
                name: "Sol Station Alpha".to_owned(),
                x: 100_000,
                y: 100_000,
                zone_id: "sol_1".to_owned(),
                services,
            },
        );

        let mut services: Vec<StationService> = Vec::new();
        services.push(StationService::Market);
        services.push(StationService::Repair);
        stations.push(
            Station {
                id: "sol_2_station".to_owned(),
                name: "Sol Mining Outpost".to_owned(),
                x: -200_000,
                y: 150_000,
                zone_id: "sol_2".to_owned(),
                services,
            },
        );

        let mut services: Vec<StationService> = Vec::new();
        services.push(StationService::Market);
        services.push(StationService::Equipment);
        services.push(StationService::Quests);
        stations.push(
            Station {
                id: "proxima_1_station".to_owned(),
                name: "Proxima Trade Hub".to_owned(),
                x: 0,
                y: 200_000,
                zone_id: "proxima_1".to_owned(),
                services,
            },
        );

        let mut services: Vec<StationService> = Vec::new();
        services.push(StationService::Market);
        services.push(StationService::Repair);
        services.push(StationService::Refuel);
        stations.push(
            Station {
                id: "belt_1_station".to_owned(),
                name: "Asteroid Belt Station".to_owned(),
                x: 300_000,
                y: -100_000,
                zone_id: "belt_1".to_owned(),
                services,
            },
        );

        proof {
            reveal_strlit("sol_1_station");
            reveal_strlit("sol_2_station");
            reveal_strlit("proxima_1_station");
            reveal_strlit("belt_1_station");
            assert(("sol_1_station"@).len() == 13);
            assert(("sol_2_station"@).len() == 13);
            assert(("proxima_1_station"@).len() == 17);
            assert(("belt_1_station"@).len() == 14);
            assert(("sol_1_station"@)[4] == '1');
            assert(("sol_2_station"@)[4] == '2');
        }
        DockingSystem { stations }
    }

    /// Index of the station with the given id, if any.
    pub fn station_index(&self, station_id: &str) -> (r: Option<usize>)
        ensures
            match r {
                Some(i) => i < self.stations@.len() && self.stations@[i as int].id@ == station_id@,
                None => forall|j: int|
                    0 <= j < self.stations@.len() ==> (#[trigger] self.stations@[j]).id@
                        != station_id@,
            },
    {
        let n = self.stations.len();
        for i in 0..n
            invariant
                n == self.stations@.len(),
                forall|j: int| 0 <= j < i ==> (#[trigger] self.stations@[j]).id@ != station_id@,
        {
            if str_eq(self.stations[i].id.as_str(), station_id) {
                return Some(i);
            }
        }
        None
    }

    /// The station with the given id, if any.
    pub fn get_station_by_id(&self, station_id: &str) -> (r: Option<Station>)
        ensures
            r is Some ==> r->0.id@ == station_id@,
            r is None ==> forall|j: int|
                0 <= j < self.stations@.len() ==> (#[trigger] self.stations@[j]).id@
                    != station_id@,
    {
        match self.station_index(station_id) {
            Some(i) => Some(self.stations[i].clone()),
            None => None,
        }
    }

    /// All stations of one zone.
    pub fn get_stations_in_zone(&self, zone_id: &str) -> (r: Vec<Station>)
        ensures
            forall|i: int| 0 <= i < r@.len() ==> (#[trigger] r@[i]).zone_id@ == zone_id@,
    {
        let mut out: Vec<Station> = Vec::new();
        let n = self.stations.len();
        for i in 0..n
            invariant
                n == self.stations@.len(),
                forall|t: int| 0 <= t < out@.len() ==> (#[trigger] out@[t]).zone_id@ == zone_id@,
        {
            if str_eq(self.stations[i].zone_id.as_str(), zone_id) {
                out.push(self.stations[i].clone());
            }
        }
        out
    }

    /// Dock a player at a station.  Docking succeeds exactly when the
    /// player is undocked, the station exists in the player's zone, and
    /// the player is within docking range; docking stops the ship and any
    /// mining.
    pub fn dock_at_station(&self, player: &mut Player, station_id: &str) -> (r: Option<String>)
        requires
            old(player).wf(),
            self.wf(),
        ensures
            final(player).wf(),
            r is Some ==> *final(player) == *old(player),
            r is None ==> {
                &&& final(player).is_docked
                &&& final(player).state.vx == 0
                &&& final(player).state.vy == 0
                &&& final(player).mining_node_id is None
                &&& final(player).docked_station_zone_id is Some
                &&& final(player).state.x == old(player).state.x
                &&& final(player).state.y == old(player).state.y
                &&& final(player).inventory == old(player).inventory
                &&& final(player).id == old(player).id
            },
            r is None ==> !old(player).is_docked,
            old(player).is_docked ==> r is Some,
            // Success is owed: an undocked player beside a station of
            // their zone docks.
            (!old(player).is_docked && (exists|i: int|
                0 <= i < self.stations@.len() && {
                    let st = #[trigger] self.stations@[i];
                    &&& st.id@ == station_id@
                    &&& st.zone_id@ == old(player).zone_id@
                    &&& spec_dist_sq(
                        old(player).state.x as int,
                        old(player).state.y as int,
                        st.x as int,
                        st.y as int,
                    ) <= config::DOCKING_RANGE_MILLI * config::DOCKING_RANGE_MILLI
                })) ==> r is None,
    {
        if player.is_docked {
            return Some("Already docked".to_owned());
        }
        let si = match self.station_index(station_id) {
            Some(i) => i,
            None => {
                return Some("Station not found".to_owned());
            },
        };
        if !str_eq(self.stations[si].zone_id.as_str(), player.zone_id.as_str()) {
            proof {
                // Station ids are distinct, so any station with this id
                // is the one found, and it is not in the player's zone.
                assert forall|i: int|
                    0 <= i < self.stations@.len() && (#[trigger] self.stations@[i]).id@
                        == station_id@ implies self.stations@[i].zone_id@ != player.zone_id@ by {
                    if i != si {
                        assert(self.stations@[i].id@ != self.stations@[si as int].id@);
                    }
                }
            }
            return Some("Station not in current zone".to_owned());
        }
        let sx = self.stations[si].x;
        let sy = self.stations[si].y;
        proof {
            let dxx = player.state.x - sx;
            let dyy = player.state.y - sy;
            assert(dxx * dxx + dyy * dyy <= 2 * (2_000_000_000 * 2_000_000_000))
                by (nonlinear_arith)
                requires
                    -2_000_000_000 <= dxx <= 2_000_000_000,
                    -2_000_000_000 <= dyy <= 2_000_000_000,
            ;
        }
        let d2 = dist_sq(player.state.x, player.state.y, sx, sy);
        let range_sq = (config::DOCKING_RANGE_MILLI * config::DOCKING_RANGE_MILLI) as u64;
        if d2 > range_sq {
            proof {
                assert forall|i: int|
                    0 <= i < self.stations@.len() && (#[trigger] self.stations@[i]).id@
                        == station_id@ implies spec_dist_sq(
                    player.state.x as int,
                    player.state.y as int,
                    self.stations@[i].x as int,
                    self.stations@[i].y as int,
                ) > config::DOCKING_RANGE_MILLI * config::DOCKING_RANGE_MILLI by {
                    if i != si {
                        assert(self.stations@[i].id@ != self.stations@[si as int].id@);
                    }
                }
            }
            return Some("Too far from station".to_owned());
        }

        player.state.vx = 0;
        player.state.vy = 0;
        player.is_docked = true;
        player.docked_station_zone_id = Some(self.stations[si].zone_id.clone());
        player.mining_node_id = None;
        None
    }

    /// Undock; fails exactly when the player is not docked.
    pub fn undock_from_station(&self, player: &mut Player) -> (r: Option<String>)
        requires
            old(player).wf(),
        ensures
            final(player).wf(),
            r is Some <==> !old(player).is_docked,
            r is Some ==> *final(player) == *old(player),
            r is None ==> {
                &&& !final(player).is_docked
                &&& final(player).docked_station_zone_id is None
                &&& final(player).state == old(player).state
                &&& final(player).inventory == old(player).inventory
                &&& final(player).id == old(player).id
            },
    {
        if !player.is_docked {
            return Some("Not currently docked".to_owned());
        }
        player.is_docked = false;
        player.docked_station_zone_id = None;
        None
    }

    /// Whether a docked player can use a service of the named station.
    pub fn can_use_service(&self, player: &Player, station_id: &str, service: StationService) -> (r:
        bool)
        ensures
            !player.is_docked ==> !r,
    {
        if !player.is_docked {
            return false;
        }
        let si = match self.station_index(station_id) {
            Some(i) => i,
            None => {
                return false;
            },
        };
        let docked_zone = match &player.docked_station_zone_id {
            Some(z) => z,
            None => {
                return false;
            },
        };
        if !str_eq(self.stations[si].zone_id.as_str(), docked_zone.as_str()) {
            return false;
        }
        let ns = self.stations[si].services.len();
        for k in 0..ns
            invariant
                si < self.stations@.len(),
                ns == self.stations@[si as int].services@.len(),
                player.is_docked,
        {
            if self.stations[si].services[k] == service {
                return true;
            }
        }
        false
    }
}

} // verus!

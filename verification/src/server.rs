//! The authoritative game loop: connection bookkeeping, message
//! dispatch, the per-tick simulation pass, and persistence snapshots.
//!
//! The host process owns the sockets, the clock and the store; it decodes
//! frames into requests, hands them here with the current time, and
//! delivers the returned events.

use vstd::prelude::*;

use crate::combat::{apply_damage, create_default_combat_stats, CombatStats};
use crate::combat_manager::{
    handle_fire_weapon, handle_respawn, process_combat_tick, CombatEvent, CombatPlayerData,
};
use crate::config;
use crate::crafting::{process_crafting_tick, try_start_craft, CraftingQueue};
use crate::docking::DockingSystem;
use crate::equipment::{EquipmentSlotType, PlayerEquipment};
use crate::inventory::Inventory;
use crate::market::{
    apply_buy_refund, apply_trade_to_buyer, apply_trade_to_seller, Market, OrderSide, TradeResult,
};
use crate::mining::{process_mining_tick, start_mining_in_zone, stop_mining};
use crate::movement::simulate_movement;
use crate::msg::{
    ActiveQuestsResponse, AvailableQuestsRequest, AvailableQuestsResponse, CraftCompletePayload,
    CraftFailedPayload, CraftingStartRequest, CraftingStartResponse, DockRequest,
    EquipItemRequest, EquipItemResponse, HelloPayload, HitConfirmPayload, InputMsgPayload,
    MarketCancelRequest, MarketCancelResponse, MarketOrderBookPayload, MarketOrderRequest,
    MarketOrderResponse, MarketRequestBookPayload, MarketTradeExecutedPayload,
    EquipmentSlotState, NodeDepletedPayload, PingPayload, PlayerDamagedPayload, PlayerDeathPayload,
    PlayerJoinedPayload, PlayerLeftPayload, PongPayload, QuestAbandonRequest,
    QuestAbandonResponse, QuestAcceptRequest, QuestAcceptResponse, QuestCompleteNotification,
    QuestProgressUpdate, ResourceNodeState, RespawnPayload, StartMiningPayload,
    UndockResponse, UnequipItemRequest, UnequipItemResponse, WeaponFireRequest,
    WeaponFireResponse, WelcomePayload, WorldStatePayload, ZoneBoundsPayload, ZoneInfoPayload,
    ZoneTransferPayload, node_to_state,
};
use crate::persist::{clamp_restored_vitals, restore_inventory, PlayerSaveData, EquipmentSlotRecord};
use crate::player::{Player, PlayerInput, WORLD_LIMIT_MILLI};
use crate::progression::{calculate_ship_stats, PlayerProgression, XP_REWARD_COMBAT_KILL, XP_REWARD_CRAFTING, XP_REWARD_MINING};
use crate::quest::QuestObjectiveType;
use crate::quest_tracker::QuestTracker;
use crate::spawner::SpawnManager;
use crate::util::str_eq;
use crate::weapon::{Projectile, WeaponType};
use crate::zone::{create_sol_proxima, Zone};

verus! {

/// A request decoded from one frame of a connection.
pub enum ClientRequest {
    Hello(HelloPayload),
    Input(InputMsgPayload),
    Ping(PingPayload),
    StartMining(StartMiningPayload),
    StopMining,
    ZoneTransfer(ZoneTransferPayload),
    CraftStart(CraftingStartRequest),
    MarketPlaceOrder(MarketOrderRequest),
    MarketCancelOrder(MarketCancelRequest),
    MarketRequestBook(MarketRequestBookPayload),
    FireWeapon(WeaponFireRequest),
    RespawnRequest,
    EquipItem(EquipItemRequest),
    UnequipItem(UnequipItemRequest),
    QuestAccept(QuestAcceptRequest),
    QuestAbandon(QuestAbandonRequest),
    QuestList,
    QuestAvailable,
    DockRequest(DockRequest),
    UndockRequest,
    Unknown,
}

/// One event for the host to serialise and deliver.
pub enum OutEvent {
    /// To one connection.
    ToConn { conn_id: u64, type_id: u8, payload: OutPayload },
    /// To every connected player of a zone.
    ToZone { zone_id: String, type_id: u8, payload: OutPayload },
    /// To every connected player of a zone but one.
    ToZoneExcept { zone_id: String, exclude_player: u32, type_id: u8, payload: OutPayload },
}

/// The payload of an outgoing event.
pub enum OutPayload {
    Welcome(WelcomePayload),
    ZoneInfo(ZoneInfoPayload),
    PlayerJoined(PlayerJoinedPayload),
    PlayerLeft(PlayerLeftPayload),
    Pong(PongPayload),
    MiningUpdate(crate::mining::MiningUpdate),
    NodeDepleted(NodeDepletedPayload),
    WorldState(WorldStatePayload),
    CraftingStart(CraftingStartResponse),
    CraftComplete(CraftCompletePayload),
    CraftFailed(CraftFailedPayload),
    MarketOrder(MarketOrderResponse),
    MarketCancel(MarketCancelResponse),
    MarketBook(MarketOrderBookPayload),
    MarketTrade(MarketTradeExecutedPayload),
    FireResult(WeaponFireResponse),
    HitConfirm(HitConfirmPayload),
    PlayerDamaged(PlayerDamagedPayload),
    PlayerDeath(PlayerDeathPayload),
    Respawn(RespawnPayload),
    EquipResult(EquipItemResponse),
    UnequipResult(UnequipItemResponse),
    EquipmentState(Vec<EquipmentSlotState>),
    ShipStats(crate::progression::ShipStats),
    LevelUp(crate::progression::LevelUpPayload),
    QuestAccept(QuestAcceptResponse),
    QuestAbandon(QuestAbandonResponse),
    QuestProgress(QuestProgressUpdate),
    QuestComplete(QuestCompleteNotification),
    QuestList(ActiveQuestsResponse),
    QuestAvailable(AvailableQuestsResponse),
    DockResult(UndockResponse),
    UndockResult(UndockResponse),
    NpcSpawn(crate::npc::NPCSpawnPayload),
    NpcDeath(crate::npc::NPCDeathPayload),
    NpcStates(Vec<crate::npc::NPCStatePayload>),
}

/// An arrival broadcast to a zone.
pub open spec fn spec_is_joined_broadcast(e: OutEvent) -> bool {
    match e {
        OutEvent::ToZoneExcept { payload: OutPayload::PlayerJoined(_), .. } => true,
        _ => false,
    }
}

/// A departure broadcast to a zone.
pub open spec fn spec_is_left_broadcast(e: OutEvent) -> bool {
    match e {
        OutEvent::ToZoneExcept { payload: OutPayload::PlayerLeft(_), .. } => true,
        _ => false,
    }
}

/// How many arrival broadcasts the event list carries.
pub open spec fn spec_count_joined(s: Seq<OutEvent>) -> nat
    decreases s.len(),
{
    if s.len() == 0 {
        0
    } else {
        spec_count_joined(s.drop_last()) + (if spec_is_joined_broadcast(s.last()) {
            1nat
        } else {
            0nat
        })
    }
}

/// How many departure broadcasts the event list carries.
pub open spec fn spec_count_left(s: Seq<OutEvent>) -> nat
    decreases s.len(),
{
    if s.len() == 0 {
        0
    } else {
        spec_count_left(s.drop_last()) + (if spec_is_left_broadcast(s.last()) {
            1nat
        } else {
            0nat
        })
    }
}

proof fn lemma_counts_push(s: Seq<OutEvent>, e: OutEvent)
    ensures
        spec_count_joined(s.push(e)) == spec_count_joined(s) + (if spec_is_joined_broadcast(e) {
            1nat
        } else {
            0nat
        }),
        spec_count_left(s.push(e)) == spec_count_left(s) + (if spec_is_left_broadcast(e) {
            1nat
        } else {
            0nat
        }),
{
    assert(s.push(e).drop_last() =~= s);
    assert(s.push(e).last() == e);
}

/// Whether some connection entry maps `conn_id` to a player.
pub open spec fn spec_conn_mapped(s: GameServer, conn_id: u64) -> bool {
    exists|i: int|
        0 <= i < s.conn_players@.len() && (#[trigger] s.conn_players@[i]).0 == conn_id
}

/// Whether the zone holds a player with this id.
pub open spec fn spec_zone_has_player(z: Zone, player_id: u32) -> bool {
    exists|k: int| 0 <= k < z.players@.len() && (#[trigger] z.players@[k]).id == player_id
}

/// Whether the world holds the default zone.
pub open spec fn spec_has_default_zone(s: GameServer) -> bool {
    exists|i: int|
        0 <= i < s.zones@.len() && (#[trigger] s.zones@[i]).id@ == crate::config::DEFAULT_ZONE_ID@
}

/// How many players of the list are connected.
pub open spec fn spec_active_count(players: Seq<Player>) -> nat
    decreases players.len(),
{
    if players.len() == 0 {
        0
    } else {
        spec_active_count(players.drop_last()) + (if !players.last().is_disconnected {
            1nat
        } else {
            0nat
        })
    }
}

/// Whether any zone holds a player with this id.
pub open spec fn spec_player_in_world(s: GameServer, player_id: u32) -> bool {
    exists|z: int|
        0 <= z < s.zones@.len() && spec_zone_has_player(#[trigger] s.zones@[z], player_id)
}

/// The whole authoritative world.
pub struct GameServer {
    pub zones: Vec<Zone>,
    /// conn id → player id, set by the handshake.
    pub conn_players: Vec<(u64, u32)>,
    pub next_player_id: u32,
    pub tick: u64,
    pub market: Market,
    pub docking: DockingSystem,
    pub spawn_manager: SpawnManager,
    pub quest_trackers: Vec<QuestTracker>,
    pub crafting_queues: Vec<CraftingQueue>,
    pub player_equipment: Vec<(u32, PlayerEquipment)>,
    pub player_progression: Vec<(u32, PlayerProgression)>,
    pub combat_stats: Vec<(u32, CombatStats)>,
    pub weapon_cooldowns: Vec<(u32, Vec<u64>)>,
    pub equipped_weapons: Vec<(u32, Vec<WeaponType>)>,
    pub death_times: Vec<(u32, Option<u64>)>,
    pub zone_projectiles: Vec<(String, Vec<Projectile>)>,
    /// conn id → account id, set by authentication.
    pub authenticated_conns: Vec<(u64, i64)>,
    pub player_accounts: Vec<(u32, i64)>,
    pub next_projectile_id: u32,
    pub last_save_time_ms: u64,
}

impl GameServer {
    /// Zones, the market, the NPC manager and every per-player table are
    /// well formed.
    pub open spec fn wf(&self) -> bool {
        &&& forall|i: int| 0 <= i < self.zones@.len() ==> (#[trigger] self.zones@[i]).wf()
        &&& self.market.wf()
        &&& self.docking.wf()
        &&& self.spawn_manager.wf()
        &&& forall|i: int| 0 <= i < self.quest_trackers@.len() ==> (
        #[trigger] self.quest_trackers@[i]).wf()
        &&& forall|i: int| 0 <= i < self.combat_stats@.len() ==> (
        #[trigger] self.combat_stats@[i]).1.wf()
        &&& forall|i: int| 0 <= i < self.player_equipment@.len() ==> (
        #[trigger] self.player_equipment@[i]).1.wf()
        &&& forall|i: int| 0 <= i < self.player_progression@.len() ==> (
        #[trigger] self.player_progression@[i]).1.wf()
        &&& forall|i: int|
            0 <= i < self.zone_projectiles@.len() ==> (forall|j: int|
                0 <= j < (#[trigger] self.zone_projectiles@[i]).1@.len() ==> (
                #[trigger] self.zone_projectiles@[i].1@[j]).wf())
    }

    /// A fresh world: the standard galaxy, no players, empty systems.
    pub fn new(next_player_id: u32) -> (r: Self)
        ensures
            r.wf(),
            r.zones@.len() == 4,
            r.next_player_id == next_player_id,
            r.tick == 0,
    {
        GameServer {
            zones: create_sol_proxima(),
            conn_players: Vec::new(),
            next_player_id,
            tick: 0,
            market: Market::new(),
            docking: DockingSystem::new(),
            spawn_manager: SpawnManager::new(),
            quest_trackers: Vec::new(),
            crafting_queues: Vec::new(),
            player_equipment: Vec::new(),
            player_progression: Vec::new(),
            combat_stats: Vec::new(),
            weapon_cooldowns: Vec::new(),
            equipped_weapons: Vec::new(),
            death_times: Vec::new(),
            zone_projectiles: Vec::new(),
            authenticated_conns: Vec::new(),
            player_accounts: Vec::new(),
            next_projectile_id: 1,
            last_save_time_ms: 0,
        }
    }

    /// Record an authenticated connection.
    pub fn set_authenticated(&mut self, conn_id: u64, account_id: i64)
        requires
            old(self).wf(),
        ensures
            final(self).wf(),
    {
        self.authenticated_conns.push((conn_id, account_id));
    }

    /// The account a connection authenticated as, if any.
    pub fn account_of_conn(&self, conn_id: u64) -> (r: Option<i64>)
    {
        let n = self.authenticated_conns.len();
        for i in 0..n
            invariant
                n == self.authenticated_conns@.len(),
        {
            if self.authenticated_conns[i].0 == conn_id {
                return Some(self.authenticated_conns[i].1);
            }
        }
        None
    }

    /// The player attached to a connection, if the handshake happened.
    pub fn player_of_conn(&self, conn_id: u64) -> (r: Option<u32>)
        ensures
            r is Some <==> spec_conn_mapped(*self, conn_id),
    {
        let n = self.conn_players.len();
        for i in 0..n
            invariant
                n == self.conn_players@.len(),
                forall|j: int| 0 <= j < i ==> (#[trigger] self.conn_players@[j]).0 != conn_id,
        {
            if self.conn_players[i].0 == conn_id {
                return Some(self.conn_players[i].1);
            }
        }
        None
    }

    /// The connection a player is attached to, if any.
    pub fn conn_of_player(&self, player_id: u32) -> (r: Option<u64>)
    {
        let n = self.conn_players.len();
        for i in 0..n
            invariant
                n == self.conn_players@.len(),
        {
            if self.conn_players[i].1 == player_id {
                return Some(self.conn_players[i].0);
            }
        }
        None
    }

    /// Index of the zone holding the given player.
    fn zone_of_player(&self, player_id: u32) -> (r: Option<usize>)
        ensures
            match r {
                Some(i) => i < self.zones@.len() && spec_zone_has_player(
                    self.zones@[i as int],
                    player_id,
                ),
                None => !spec_player_in_world(*self, player_id),
            },
    {
        let n = self.zones.len();
        for zi in 0..n
            invariant
                n == self.zones@.len(),
                forall|z: int|
                    0 <= z < zi ==> !spec_zone_has_player(#[trigger] self.zones@[z], player_id),
        {
            if self.zones[zi].player_index(player_id).is_some() {
                return Some(zi);
            }
        }
        None
    }

    /// Index of a zone by id.
    fn zone_index(&self, zone_id: &str) -> (r: Option<usize>)
        ensures
            match r {
                Some(i) => i < self.zones@.len() && self.zones@[i as int].id@ == zone_id@,
                None => forall|j: int|
                    0 <= j < self.zones@.len() ==> (#[trigger] self.zones@[j]).id@ != zone_id@,
            },
    {
        let n = self.zones.len();
        for zi in 0..n
            invariant
                n == self.zones@.len(),
                forall|j: int| 0 <= j < zi ==> (#[trigger] self.zones@[j]).id@ != zone_id@,
        {
            if str_eq(self.zones[zi].id.as_str(), zone_id) {
                return Some(zi);
            }
        }
        None
    }
}


impl GameServer {
    /// Look up (or create) per-player table rows.
    fn quest_tracker_index(&self, player_id: u32) -> (r: Option<usize>)
        ensures
            match r {
                Some(i) => i < self.quest_trackers@.len() && self.quest_trackers@[i as int].player_id
                    == player_id,
                None => true,
            },
    {
        let n = self.quest_trackers.len();
        for i in 0..n
            invariant
                n == self.quest_trackers@.len(),
        {
            if self.quest_trackers[i].player_id == player_id {
                return Some(i);
            }
        }
        None
    }

    fn crafting_queue_index(&self, player_id: u32) -> (r: Option<usize>)
        ensures
            match r {
                Some(i) => i < self.crafting_queues@.len(),
                None => true,
            },
    {
        let n = self.crafting_queues.len();
        for i in 0..n
            invariant
                n == self.crafting_queues@.len(),
        {
            if self.crafting_queues[i].player_id == player_id {
                return Some(i);
            }
        }
        None
    }

    fn stats_index(&self, player_id: u32) -> (r: Option<usize>)
        ensures
            match r {
                Some(i) => i < self.combat_stats@.len(),
                None => true,
            },
    {
        let n = self.combat_stats.len();
        for i in 0..n
            invariant
                n == self.combat_stats@.len(),
        {
            if self.combat_stats[i].0 == player_id {
                return Some(i);
            }
        }
        None
    }

    fn equipment_index(&self, player_id: u32) -> (r: Option<usize>)
        ensures
            match r {
                Some(i) => i < self.player_equipment@.len(),
                None => true,
            },
    {
        let n = self.player_equipment.len();
        for i in 0..n
            invariant
                n == self.player_equipment@.len(),
        {
            if self.player_equipment[i].0 == player_id {
                return Some(i);
            }
        }
        None
    }

    fn progression_index(&self, player_id: u32) -> (r: Option<usize>)
        ensures
            match r {
                Some(i) => i < self.player_progression@.len(),
                None => true,
            },
    {
        let n = self.player_progression.len();
        for i in 0..n
            invariant
                n == self.player_progression@.len(),
        {
            if self.player_progression[i].0 == player_id {
                return Some(i);
            }
        }
        None
    }

    fn cooldowns_index(&self, player_id: u32) -> (r: Option<usize>)
        ensures
            match r {
                Some(i) => i < self.weapon_cooldowns@.len(),
                None => true,
            },
    {
        let n = self.weapon_cooldowns.len();
        for i in 0..n
            invariant
                n == self.weapon_cooldowns@.len(),
        {
            if self.weapon_cooldowns[i].0 == player_id {
                return Some(i);
            }
        }
        None
    }

    fn weapons_index(&self, player_id: u32) -> (r: Option<usize>)
        ensures
            match r {
                Some(i) => i < self.equipped_weapons@.len(),
                None => true,
            },
    {
        let n = self.equipped_weapons.len();
        for i in 0..n
            invariant
                n == self.equipped_weapons@.len(),
        {
            if self.equipped_weapons[i].0 == player_id {
                return Some(i);
            }
        }
        None
    }

    fn death_time_of(&self, player_id: u32) -> (r: Option<u64>)
    {
        let n = self.death_times.len();
        for i in 0..n
            invariant
                n == self.death_times@.len(),
        {
            if self.death_times[i].0 == player_id {
                return self.death_times[i].1;
            }
        }
        None
    }

    fn set_death_time(&mut self, player_id: u32, t: Option<u64>)
        requires
            old(self).wf(),
        ensures
            final(self).wf(),
            final(self).tick == old(self).tick,
            final(self).last_save_time_ms == old(self).last_save_time_ms,
            final(self).zones@ == old(self).zones@,
            final(self).combat_stats@ == old(self).combat_stats@,
    {
        let n = self.death_times.len();
        for i in 0..n
            invariant
                n == self.death_times@.len(),
                self.wf(),
                self.tick == old(self).tick,
                self.last_save_time_ms == old(self).last_save_time_ms,
                self.zones@ == old(self).zones@,
                self.combat_stats@ == old(self).combat_stats@,
        {
            if self.death_times[i].0 == player_id {
                self.death_times[i] = (player_id, t);
                return ;
            }
        }
        self.death_times.push((player_id, t));
    }

    fn projectiles_index(&self, zone_id: &str) -> (r: Option<usize>)
        ensures
            match r {
                Some(i) => i < self.zone_projectiles@.len(),
                None => true,
            },
    {
        let n = self.zone_projectiles.len();
        for i in 0..n
            invariant
                n == self.zone_projectiles@.len(),
        {
            if str_eq(self.zone_projectiles[i].0.as_str(), zone_id) {
                return Some(i);
            }
        }
        None
    }

    /// Zone description for a newly arrived player.
    fn build_zone_info(&self, zi: usize) -> (r: ZoneInfoPayload)
        requires
            self.wf(),
            zi < self.zones@.len(),
    {
        let zone = &self.zones[zi];
        let mut players: Vec<crate::player::PlayerState> = Vec::new();
        let np = zone.players.len();
        for i in 0..np
            invariant
                zi < self.zones@.len(),
                np == self.zones@[zi as int].players@.len(),
                zone == &self.zones[zi as int],
        {
            if !zone.players[i].is_disconnected {
                players.push(zone.players[i].state);
            }
        }
        let mut nodes: Vec<ResourceNodeState> = Vec::new();
        let nn = zone.resource_nodes.len();
        for i in 0..nn
            invariant
                zi < self.zones@.len(),
                nn == self.zones@[zi as int].resource_nodes@.len(),
                zone == &self.zones[zi as int],
        {
            nodes.push(node_to_state(&zone.resource_nodes[i]));
        }
        ZoneInfoPayload {
            zone_id: zone.id.clone(),
            zone_name: zone.name.clone(),
            zone_type: zone.zone_type.clone(),
            bounds: ZoneBoundsPayload {
                x_min: zone.bounds.x_min,
                x_max: zone.bounds.x_max,
                y_min: zone.bounds.y_min,
                y_max: zone.bounds.y_max,
            },
            players,
            resource_nodes: nodes,
        }
    }

    /// The HELLO handshake: a duplicate on a mapped connection is a
    /// no-op; a returning account restores its saved player with vitals
    /// clamped to the current maxima; a new player is allocated the next
    /// id and a random spawn in the default zone.  The newcomer receives
    /// WELCOME, the zone description and ship stats; the zone hears one
    /// arrival broadcast; the newcomer one back-fill per resident.
    pub fn handle_hello(
        &mut self,
        conn_id: u64,
        payload: HelloPayload,
        loaded: Option<PlayerSaveData>,
        now_ms: u64,
    ) -> (events: Vec<OutEvent>)
        requires
            old(self).wf(),
        ensures
            final(self).wf(),
            // A second handshake on a mapped connection changes nothing.
            spec_conn_mapped(*old(self), conn_id) ==> events@.len() == 0 && *final(self) == *old(
                self,
            ),
            // A successful handshake maps the connection and announces
            // the newcomer with exactly one arrival broadcast.
            events@.len() > 0 ==> spec_count_joined(events@) == 1 && spec_count_left(events@)
                == 0 && spec_conn_mapped(*final(self), conn_id),
            // A fresh handshake into an existing default zone always
            // succeeds: the newcomer gets WELCOME, then the zone
            // description.
            (!spec_conn_mapped(*old(self), conn_id) && loaded is None && spec_has_default_zone(
                *old(self),
            ) && !spec_player_in_world(*old(self), old(self).next_player_id)) ==> events@.len() > 1
                && (events@[0] matches OutEvent::ToConn {
                conn_id: c0,
                payload: OutPayload::Welcome(_),
                ..
            } && c0 == conn_id) && (events@[1] matches OutEvent::ToConn {
                conn_id: c1,
                payload: OutPayload::ZoneInfo(_),
                ..
            } && c1 == conn_id),
    {
        if self.player_of_conn(conn_id).is_some() {
            // Duplicate handshake: ignore.
            return Vec::new();
        }

        let name = if payload.name.as_str().is_empty() {
            "Player".to_owned()
        } else {
            payload.name
        };

        // Pick the player id, zone and spawn position.
        let (player_id, zi, spawn_x, spawn_y, from_save) = match loaded {
            Some(data) => {
                let zi = match self.zone_index(data.zone_id.as_str()) {
                    Some(i) => i,
                    None => match self.zone_index(config::DEFAULT_ZONE_ID) {
                        Some(i) => i,
                        None => {
                            return Vec::new();
                        },
                    },
                };
                let sx = clamp_to_world(data.x);
                let sy = clamp_to_world(data.y);
                (data.player_id, zi, sx, sy, Some(data))
            },
            None => {
                let zi = match self.zone_index(config::DEFAULT_ZONE_ID) {
                    Some(i) => i,
                    None => {
                        return Vec::new();
                    },
                };
                let (sx, sy) = self.zones[zi].random_spawn_position();
                let pid = self.next_player_id;
                self.next_player_id = self.next_player_id.wrapping_add(1);
                (pid, zi, sx, sy, None)
            },
        };

        if self.zones[zi].player_index(player_id).is_some() {
            // The player record is already in the world; refuse a second.
            return Vec::new();
        }

        let mut player = Player::new(player_id, spawn_x, spawn_y, name);

        // Per-player systems.
        let mut tracker = QuestTracker::new(player_id);
        let mut progression = PlayerProgression::new();
        let mut equipment = PlayerEquipment::new();
        let mut stats = create_default_combat_stats();

        match &from_save {
            Some(data) => {
                player.inventory = restore_inventory(data.omen_balance_centi, &data.inventory_items);
                if data.level >= 1 && data.level <= crate::progression::MAX_LEVEL {
                    progression.level = data.level;
                    progression.xp = 0;
                    progression.skill_points = 0;
                    if data.level < crate::progression::MAX_LEVEL {
                        progression.next_level_xp = crate::progression::xp_for_next_level(
                            data.level,
                        );
                        if data.xp < progression.next_level_xp {
                            progression.xp = data.xp;
                        }
                    } else {
                        progression.next_level_xp = 0;
                    }
                }
                let ne = data.equipment_slots.len();
                for i in 0..ne
                    invariant
                        ne == data.equipment_slots@.len(),
                        equipment.wf(),
                {
                    let rec_item = slot_record_item(&data.equipment_slots, i);
                    equipment.equip(rec_item);
                }
                let mods = equipment.get_aggregate_stats();
                let ship = calculate_ship_stats(progression.level, &mods);
                stats.max_hp = ship.max_hp;
                stats.max_shield = ship.max_shield;
                let (hp, shield) = clamp_restored_vitals(
                    data.hp,
                    data.shield,
                    ship.max_hp,
                    ship.max_shield,
                );
                stats.hp = hp;
                stats.shield = shield;
            },
            None => {},
        }
        match from_save {
            Some(data) => {
                tracker.restore_active_quests(data.quest_progress);
                match self.account_of_conn(conn_id) {
                    Some(aid) => {
                        self.player_accounts.push((player_id, aid));
                    },
                    None => {},
                }
            },
            None => {
                match self.account_of_conn(conn_id) {
                    Some(aid) => {
                        self.player_accounts.push((player_id, aid));
                    },
                    None => {},
                }
            },
        }

        self.conn_players.push((conn_id, player_id));
        proof {
            assert(self.conn_players@[self.conn_players@.len() - 1].0 == conn_id);
            assert(spec_conn_mapped(*self, conn_id));
        }
        self.quest_trackers.push(tracker);
        self.crafting_queues.push(CraftingQueue::new(player_id));
        self.player_equipment.push((player_id, equipment));
        self.player_progression.push((player_id, progression));
        self.combat_stats.push((player_id, stats));
        let mut base_weapons: Vec<WeaponType> = Vec::new();
        base_weapons.push(WeaponType::Laser);
        base_weapons.push(WeaponType::Missile);
        self.equipped_weapons.push((player_id, base_weapons));
        let mut zero_cooldowns: Vec<u64> = Vec::new();
        zero_cooldowns.push(0);
        zero_cooldowns.push(0);
        self.weapon_cooldowns.push((player_id, zero_cooldowns));
        self.death_times.push((player_id, None));

        let zone_id_copy = self.zones[zi].id.clone();
        self.zones[zi].add_player(player);

        // Events for the newcomer and the zone.
        let mut events: Vec<OutEvent> = Vec::new();
        let ghost eh0 = events@;
        events.push(
            OutEvent::ToConn {
                conn_id,
                type_id: crate::codec::WELCOME,
                payload: OutPayload::Welcome(
                    WelcomePayload {
                        player_id,
                        tick_rate: config::TICK_RATE,
                        spawn_x,
                        spawn_y,
                    },
                ),
            },
        );
        proof {
            lemma_counts_push(eh0, events@.last());
            assert(spec_count_joined(events@) == 0 && spec_count_left(events@) == 0);
        }
        let info = self.build_zone_info(zi);
        let ghost eh1 = events@;
        events.push(
            OutEvent::ToConn {
                conn_id,
                type_id: crate::codec::ZONE_INFO,
                payload: OutPayload::ZoneInfo(info),
            },
        );
        proof {
            lemma_counts_push(eh1, events@.last());
            assert(spec_count_joined(events@) == 0 && spec_count_left(events@) == 0);
        }
        // The newcomer's equipment and ship stats.
        self.push_equipment_update(player_id, conn_id, &mut events);
        self.push_ship_stats(player_id, conn_id, &mut events);
        // One arrival broadcast for the zone.
        let ghost eh2 = events@;
        events.push(
            OutEvent::ToZoneExcept {
                zone_id: zone_id_copy,
                exclude_player: player_id,
                type_id: crate::codec::PLAYER_JOINED,
                payload: OutPayload::PlayerJoined(
                    PlayerJoinedPayload { id: player_id, x: spawn_x, y: spawn_y },
                ),
            },
        );
        proof {
            lemma_counts_push(eh2, events@.last());
            assert(spec_count_joined(events@) == 1 && spec_count_left(events@) == 0);
        }
        // Back-fill: one arrival per resident for the newcomer.
        let np = self.zones[zi].players.len();
        for i in 0..np
            invariant
                zi < self.zones@.len(),
                np == self.zones@[zi as int].players@.len(),
                spec_count_joined(events@) == 1,
                spec_count_left(events@) == 0,
                events@.len() > 1,
                (events@[0] matches OutEvent::ToConn {
                    conn_id: c0,
                    payload: OutPayload::Welcome(_),
                    ..
                } && c0 == conn_id),
                (events@[1] matches OutEvent::ToConn {
                    conn_id: c1,
                    payload: OutPayload::ZoneInfo(_),
                    ..
                } && c1 == conn_id),
        {
            let resident = &self.zones[zi].players[i];
            if resident.id != player_id && !resident.is_disconnected {
                let ghost ehl = events@;
                events.push(
                    OutEvent::ToConn {
                        conn_id,
                        type_id: crate::codec::PLAYER_JOINED,
                        payload: OutPayload::PlayerJoined(
                            PlayerJoinedPayload {
                                id: resident.id,
                                x: resident.state.x,
                                y: resident.state.y,
                            },
                        ),
                    },
                );
                proof {
                    lemma_counts_push(ehl, events@.last());
                }
            }
        }
        proof {
            assert(self.conn_players@[self.conn_players@.len() - 1].0 == conn_id);
            assert(spec_conn_mapped(*self, conn_id));
        }
        events
    }

    /// Move a player between zones: the source zone hears exactly one
    /// departure broadcast, the destination exactly one arrival
    /// broadcast, and the mover receives the zone description and one
    /// back-fill arrival per resident.
    pub fn transfer_player(&mut self, player_id: u32, from_zi: usize, to_zi: usize) -> (r: Option<
        Vec<OutEvent>,
    >)
        requires
            old(self).wf(),
            from_zi < old(self).zones@.len(),
            to_zi < old(self).zones@.len(),
            from_zi != to_zi,
        ensures
            final(self).wf(),
            final(self).tick == old(self).tick,
            final(self).last_save_time_ms == old(self).last_save_time_ms,
            final(self).zones@.len() == old(self).zones@.len(),
            r is None ==> *final(self) == *old(self),
            // The transfer happens exactly when the source zone holds
            // the player and the destination does not yet.
            r is Some <==> spec_zone_has_player(old(self).zones@[from_zi as int], player_id)
                && !spec_zone_has_player(old(self).zones@[to_zi as int], player_id),
            r is Some ==> {
                &&& spec_count_left(r->0@) == 1
                &&& spec_count_joined(r->0@) == 1
                // The mover's zone description, then one back-fill
                // arrival per connected destination resident.
                &&& r->0@.len() == 3 + spec_active_count(
                    old(self).zones@[to_zi as int].players@,
                )
                &&& (r->0@[1] matches OutEvent::ToConn { payload: OutPayload::ZoneInfo(_), .. })
                &&& forall|j: int|
                    0 <= j < final(self).zones@[from_zi as int].players@.len() ==> (
                    #[trigger] final(self).zones@[from_zi as int].players@[j]).id != player_id
                &&& ({
                    let tz = final(self).zones@[to_zi as int];
                    exists|k: int|
                        0 <= k < tz.players@.len() && (#[trigger] tz.players@[k]).id == player_id
                            && tz.players@[k].state.vx == 0 && tz.players@[k].state.vy == 0
                            && tz.bounds.x_min <= tz.players@[k].state.x < tz.bounds.x_max
                            && tz.bounds.y_min <= tz.players@[k].state.y < tz.bounds.y_max
                })
                &&& forall|z: int|
                    0 <= z < final(self).zones@.len() && z != from_zi && z != to_zi
                        ==> final(self).zones@[z] == old(self).zones@[z]
            },
    {
        if self.zones[to_zi].player_index(player_id).is_some() {
            return None;
        }
        if self.zones[from_zi].player_index(player_id).is_none() {
            return None;
        }
        let taken = self.zones[from_zi].remove_player(player_id);
        let mut player = match taken {
            Some(p) => p,
            None => {
                proof {
                    assert(false);
                }
                return None;
            },
        };
        let conn_id = match self.conn_of_player(player_id) {
            Some(c) => c,
            None => 0,
        };

        proof {
            assert(old(self).zones@[to_zi as int].wf());
            assert(self.zones@[to_zi as int] == old(self).zones@[to_zi as int]);
        }
        let (spawn_x, spawn_y) = self.zones[to_zi].random_spawn_position();
        player.state.x = spawn_x;
        player.state.y = spawn_y;
        player.state.vx = 0;
        player.state.vy = 0;

        let from_zone_id = self.zones[from_zi].id.clone();
        let to_zone_id = self.zones[to_zi].id.clone();
        proof {
            assert(player.wf());
        }
        self.zones[to_zi].add_player(player);

        let mut events: Vec<OutEvent> = Vec::new();
        // Exactly one departure broadcast in the source zone.
        let ghost ev0 = events@;
        events.push(
            OutEvent::ToZoneExcept {
                zone_id: from_zone_id,
                exclude_player: player_id,
                type_id: crate::codec::PLAYER_LEFT,
                payload: OutPayload::PlayerLeft(PlayerLeftPayload { id: player_id }),
            },
        );
        proof {
            lemma_counts_push(ev0, events@.last());
            assert(spec_count_left(events@) == 1 && spec_count_joined(events@) == 0);
        }
        let info = self.build_zone_info(to_zi);
        let ghost ev1 = events@;
        events.push(
            OutEvent::ToConn {
                conn_id,
                type_id: crate::codec::ZONE_INFO,
                payload: OutPayload::ZoneInfo(info),
            },
        );
        proof {
            lemma_counts_push(ev1, events@.last());
            assert(spec_count_left(events@) == 1 && spec_count_joined(events@) == 0);
        }
        // Exactly one arrival broadcast in the destination zone.
        let ghost ev2 = events@;
        events.push(
            OutEvent::ToZoneExcept {
                zone_id: to_zone_id,
                exclude_player: player_id,
                type_id: crate::codec::PLAYER_JOINED,
                payload: OutPayload::PlayerJoined(
                    PlayerJoinedPayload { id: player_id, x: spawn_x, y: spawn_y },
                ),
            },
        );
        proof {
            lemma_counts_push(ev2, events@.last());
            assert(spec_count_left(events@) == 1 && spec_count_joined(events@) == 1);
        }
        let np = self.zones[to_zi].players.len();
        let ghost dest0 = old(self).zones@[to_zi as int].players@;
        proof {
            assert(self.zones@[to_zi as int].players@.take(np - 1) =~= dest0);
        }
        for i in 0..np
            invariant
                self.tick == old(self).tick,
                self.last_save_time_ms == old(self).last_save_time_ms,
                to_zi < self.zones@.len(),
                np == self.zones@[to_zi as int].players@.len(),
                np >= 1,
                dest0 =~= self.zones@[to_zi as int].players@.take(np - 1),
                self.zones@[to_zi as int].players@[np - 1].id == player_id,
                forall|j: int|
                    0 <= j < np - 1 ==> (#[trigger] self.zones@[to_zi as int].players@[j]).id
                        != player_id,
                spec_count_left(events@) == 1,
                spec_count_joined(events@) == 1,
                events@.len() >= 3,
                (events@[1] matches OutEvent::ToConn { payload: OutPayload::ZoneInfo(_), .. }),
                events@.len() == 3 + spec_active_count(
                    self.zones@[to_zi as int].players@.take(if i < np - 1 {
                        i as int
                    } else {
                        np - 1
                    }),
                ),
        {
            proof {
                assert(self.zones@[to_zi as int].players@.take(i as int + 1).drop_last()
                    =~= self.zones@[to_zi as int].players@.take(i as int));
            }
            let resident = &self.zones[to_zi].players[i];
            if resident.id != player_id && !resident.is_disconnected {
                let ghost evl = events@;
                events.push(
                    OutEvent::ToConn {
                        conn_id,
                        type_id: crate::codec::PLAYER_JOINED,
                        payload: OutPayload::PlayerJoined(
                            PlayerJoinedPayload {
                                id: resident.id,
                                x: resident.state.x,
                                y: resident.state.y,
                            },
                        ),
                    },
                );
                proof {
                    lemma_counts_push(evl, events@.last());
                }
            }
        }
        Some(events)
    }
}

impl GameServer {
    /// Award XP, emitting one level-up notice per level gained, followed
    /// by refreshed ship stats.
    fn award_xp(&mut self, player_id: u32, amount: u64, events: &mut Vec<OutEvent>)
        requires
            old(self).wf(),
        ensures
            final(self).wf(),
            final(self).tick == old(self).tick,
            final(self).last_save_time_ms == old(self).last_save_time_ms,
            final(self).quest_trackers@ == old(self).quest_trackers@,
            final(self).zones@.len() == old(self).zones@.len(),
            final(self).crafting_queues@.len() == old(self).crafting_queues@.len(),
            spec_count_joined(final(events)@) == spec_count_joined(old(events)@),
            spec_count_left(final(events)@) == spec_count_left(old(events)@),
    {
        if amount == 0 {
            return ;
        }
        let pi = match self.progression_index(player_id) {
            Some(i) => i,
            None => {
                return ;
            },
        };
        let conn_id = match self.conn_of_player(player_id) {
            Some(c) => c,
            None => 0,
        };
        let current_xp = self.player_progression[pi].1.xp;
        if current_xp > u64::MAX - amount {
            return ;
        }
        let entry = &mut self.player_progression[pi];
        let ups = entry.1.add_xp(amount);
        let nu = ups.len();
        for k in 0..nu
            invariant
                self.tick == old(self).tick,
                self.last_save_time_ms == old(self).last_save_time_ms,
                spec_count_joined(events@) == spec_count_joined(old(events)@),
                spec_count_left(events@) == spec_count_left(old(events)@),
                nu == ups@.len(),
                self.wf(),
        {
            let ghost ex0 = events@;
            events.push(
                OutEvent::ToConn {
                    conn_id,
                    type_id: crate::codec::LEVEL_UP,
                    payload: OutPayload::LevelUp(
                        crate::progression::LevelUpPayload {
                            level: ups[k].level,
                            xp: ups[k].xp,
                            next_level_xp: ups[k].next_level_xp,
                            skill_points: ups[k].skill_points,
                        },
                    ),
                },
            );
            proof {
                lemma_counts_push(ex0, events@.last());
            }
        }
    }

    /// Record a world event against the player's quests; progress notes
    /// and completions (with their rewards applied) become events.
    fn update_quest_objectives(
        &mut self,
        player_id: u32,
        obj_type: QuestObjectiveType,
        target: &str,
        amount: u32,
        events: &mut Vec<OutEvent>,
    )
        requires
            old(self).wf(),
        ensures
            final(self).wf(),
            final(self).tick == old(self).tick,
            final(self).last_save_time_ms == old(self).last_save_time_ms,
            final(self).zones@.len() == old(self).zones@.len(),
            final(self).crafting_queues@.len() == old(self).crafting_queues@.len(),
            final(self).quest_trackers@.len() == old(self).quest_trackers@.len(),
            // Only the named player's tracker moves.
            forall|j: int|
                0 <= j < old(self).quest_trackers@.len() && (
                #[trigger] old(self).quest_trackers@[j]).player_id != player_id
                    ==> final(self).quest_trackers@[j] == old(self).quest_trackers@[j],
            // Quest traffic goes to connections, never to a zone.
            spec_count_joined(final(events)@) == spec_count_joined(old(events)@),
            spec_count_left(final(events)@) == spec_count_left(old(events)@),
    {
        let qi = match self.quest_tracker_index(player_id) {
            Some(i) => i,
            None => {
                return ;
            },
        };
        let conn_id = match self.conn_of_player(player_id) {
            Some(c) => c,
            None => 0,
        };
        let tracker = &mut self.quest_trackers[qi];
        let updated = tracker.update_objective(obj_type, target, amount);

        let nu = updated.len();
        for k in 0..nu
            invariant
                self.tick == old(self).tick,
                self.last_save_time_ms == old(self).last_save_time_ms,
                spec_count_joined(events@) == spec_count_joined(old(events)@),
                spec_count_left(events@) == spec_count_left(old(events)@),
                nu == updated@.len(),
                qi < self.quest_trackers@.len(),
                self.quest_trackers@.len() == old(self).quest_trackers@.len(),
                forall|j: int|
                    0 <= j < old(self).quest_trackers@.len() && j != qi ==> #[trigger] self.quest_trackers@[j]
                        == old(self).quest_trackers@[j],
                self.quest_trackers@[qi as int].player_id == player_id,
                self.wf(),
                self.zones@.len() == old(self).zones@.len(),
                self.crafting_queues@.len() == old(self).crafting_queues@.len(),
        {
            let quest_id = updated[k].clone();
            match self.quest_trackers[qi].get_active_quest(quest_id.as_str()) {
                Some(progress) => {
                    let ghost eq0 = events@;
                    events.push(
                        OutEvent::ToConn {
                            conn_id,
                            type_id: crate::codec::QUEST_PROGRESS,
                            payload: OutPayload::QuestProgress(
                                QuestProgressUpdate {
                                    quest_id: progress.quest_id,
                                    objectives: progress.objectives,
                                },
                            ),
                        },
                    );
                    proof {
                        lemma_counts_push(eq0, events@.last());
                    }
                },
                None => {},
            }
            let tracker2 = &mut self.quest_trackers[qi];
            match tracker2.check_completion(quest_id.as_str()) {
                Some(rewards) => {
                    let title = match crate::quest_db::get_quest_by_id(quest_id.as_str()) {
                        Some(q) => q.title,
                        None => String::new(),
                    };
                    let mut reward_copies: Vec<crate::quest::QuestReward> = Vec::new();
                    let nr = rewards.len();
                    for t in 0..nr
                        invariant
                self.tick == old(self).tick,
                self.last_save_time_ms == old(self).last_save_time_ms,
                            spec_count_joined(events@) == spec_count_joined(old(events)@),
                            spec_count_left(events@) == spec_count_left(old(events)@),
                            nr == rewards@.len(),
                            qi < self.quest_trackers@.len(),
                            self.quest_trackers@.len() == old(self).quest_trackers@.len(),
                            forall|j: int|
                                0 <= j < old(self).quest_trackers@.len() && j != qi ==> #[trigger] self.quest_trackers@[j]
                                    == old(self).quest_trackers@[j],
                            self.quest_trackers@[qi as int].player_id == player_id,
                            self.wf(),
                            self.zones@.len() == old(self).zones@.len(),
                            self.crafting_queues@.len() == old(self).crafting_queues@.len(),
                    {
                        reward_copies.push(rewards[t].clone());
                    }
                    let ghost ec0 = events@;
                    events.push(
                        OutEvent::ToConn {
                            conn_id,
                            type_id: crate::codec::QUEST_COMPLETE,
                            payload: OutPayload::QuestComplete(
                                QuestCompleteNotification {
                                    quest_id: quest_id.clone(),
                                    quest_title: title,
                                    rewards: reward_copies,
                                },
                            ),
                        },
                    );
                    proof {
                        lemma_counts_push(ec0, events@.last());
                    }
                    // Apply the rewards.
                    let nr2 = rewards.len();
                    for t in 0..nr2
                        invariant
                self.tick == old(self).tick,
                self.last_save_time_ms == old(self).last_save_time_ms,
                            spec_count_joined(events@) == spec_count_joined(old(events)@),
                            spec_count_left(events@) == spec_count_left(old(events)@),
                            nr2 == rewards@.len(),
                            qi < self.quest_trackers@.len(),
                            self.quest_trackers@.len() == old(self).quest_trackers@.len(),
                            forall|j: int|
                                0 <= j < old(self).quest_trackers@.len() && j != qi ==> #[trigger] self.quest_trackers@[j]
                                    == old(self).quest_trackers@[j],
                            self.quest_trackers@[qi as int].player_id == player_id,
                            self.wf(),
                            self.zones@.len() == old(self).zones@.len(),
                            self.crafting_queues@.len() == old(self).crafting_queues@.len(),
                    {
                        if str_eq(rewards[t].reward_type.as_str(), "omen") {
                            let amount_centi = if rewards[t].amount > 1_000_000_000 {
                                1_000_000_000 * 100
                            } else {
                                rewards[t].amount * 100
                            };
                            match self.zone_of_player(player_id) {
                                Some(zi) => {
                                    match self.zones[zi].player_index(player_id) {
                                        Some(ppi) => {
                                            proof {
                                                assert(self.zones@[zi as int].wf());
                                            }
                                            let zone = &mut self.zones[zi];
                                            let p = &mut zone.players[ppi];
                                            p.inventory.credit_omen(amount_centi);
                                            proof {
                                                assert(self.zones@[zi as int].wf());
                                            }
                                        },
                                        None => {},
                                    }
                                },
                                None => {},
                            }
                        } else if str_eq(rewards[t].reward_type.as_str(), "xp") {
                            let xp = rewards[t].amount;
                            self.award_xp(player_id, xp, events);
                        }
                    }
                },
                None => {},
            }
        }
    }

    /// Queue a movement input for a connection's player; docked players
    /// accept no input.
    pub fn handle_input(&mut self, conn_id: u64, payload: InputMsgPayload, now_ms: u64)
        requires
            old(self).wf(),
        ensures
            final(self).wf(),
            // A connection without a player is ignored outright.
            !spec_conn_mapped(*old(self), conn_id) ==> *final(self) == *old(self),
    {
        let player_id = match self.player_of_conn(conn_id) {
            Some(p) => p,
            None => {
                return ;
            },
        };
        let zi = match self.zone_of_player(player_id) {
            Some(z) => z,
            None => {
                return ;
            },
        };
        let ppi = match self.zones[zi].player_index(player_id) {
            Some(i) => i,
            None => {
                return ;
            },
        };
        if self.zones[zi].players[ppi].is_docked {
            return ;
        }
        proof {
            assert(self.zones@[zi as int].wf());
            assert(self.zones@[zi as int].players@[ppi as int].wf());
        }
        let zone = &mut self.zones[zi];
        let p = &mut zone.players[ppi];
        p.push_input(
            PlayerInput {
                seq: payload.seq,
                input_x_milli: payload.input_x_milli,
                input_y_milli: payload.input_y_milli,
                dt_ms: payload.dt_ms,
            },
            now_ms,
        );
    }

    /// Answer a ping with a pong carrying the client's clock.
    pub fn handle_ping(&self, conn_id: u64, payload: PingPayload) -> (r: OutEvent)
    {
        OutEvent::ToConn {
            conn_id,
            type_id: crate::codec::PONG,
            payload: OutPayload::Pong(PongPayload { client_time_ms: payload.client_time_ms }),
        }
    }

    /// Begin mining for a connection's player; docked players may not.
    pub fn handle_start_mining(&mut self, conn_id: u64, payload: StartMiningPayload)
        requires
            old(self).wf(),
        ensures
            final(self).wf(),
            // A connection without a player is ignored outright.
            !spec_conn_mapped(*old(self), conn_id) ==> *final(self) == *old(self),
    {
        let player_id = match self.player_of_conn(conn_id) {
            Some(p) => p,
            None => {
                return ;
            },
        };
        let zi = match self.zone_of_player(player_id) {
            Some(z) => z,
            None => {
                return ;
            },
        };
        let ppi = match self.zones[zi].player_index(player_id) {
            Some(i) => i,
            None => {
                return ;
            },
        };
        if self.zones[zi].players[ppi].is_docked {
            return ;
        }
        proof {
            assert(self.zones@[zi as int].wf());
        }
        let zone = &mut self.zones[zi];
        let r = start_mining_in_zone(zone, player_id, payload.node_id);
    }

    /// Stop mining for a connection's player.
    pub fn handle_stop_mining(&mut self, conn_id: u64)
        requires
            old(self).wf(),
        ensures
            final(self).wf(),
            // A connection without a player is ignored outright.
            !spec_conn_mapped(*old(self), conn_id) ==> *final(self) == *old(self),
    {
        let player_id = match self.player_of_conn(conn_id) {
            Some(p) => p,
            None => {
                return ;
            },
        };
        let zi = match self.zone_of_player(player_id) {
            Some(z) => z,
            None => {
                return ;
            },
        };
        let ppi = match self.zones[zi].player_index(player_id) {
            Some(i) => i,
            None => {
                return ;
            },
        };
        proof {
            assert(self.zones@[zi as int].wf());
            assert(self.zones@[zi as int].players@[ppi as int].wf());
        }
        let zone = &mut self.zones[zi];
        let p = &mut zone.players[ppi];
        stop_mining(p);
    }

    /// A client-requested zone transfer: only to a connected zone, never
    /// while docked.
    pub fn handle_zone_transfer(
        &mut self,
        conn_id: u64,
        payload: ZoneTransferPayload,
    ) -> (events: Vec<OutEvent>)
        requires
            old(self).wf(),
        ensures
            final(self).wf(),
    {
        let mut events: Vec<OutEvent> = Vec::new();
        let player_id = match self.player_of_conn(conn_id) {
            Some(p) => p,
            None => {
                return events;
            },
        };
        let from_zi = match self.zone_of_player(player_id) {
            Some(z) => z,
            None => {
                return events;
            },
        };
        let ppi = match self.zones[from_zi].player_index(player_id) {
            Some(i) => i,
            None => {
                return events;
            },
        };
        if self.zones[from_zi].players[ppi].is_docked {
            return events;
        }
        if !self.zones[from_zi].is_connected_to(payload.target_zone_id.as_str()) {
            return events;
        }
        let to_zi = match self.zone_index(payload.target_zone_id.as_str()) {
            Some(i) => i,
            None => {
                return events;
            },
        };
        if to_zi == from_zi {
            return events;
        }
        match self.transfer_player(player_id, from_zi, to_zi) {
            Some(mut evs) => {
                events.append(&mut evs);
                self.update_quest_objectives(
                    player_id,
                    QuestObjectiveType::Visit,
                    payload.target_zone_id.as_str(),
                    1,
                    &mut events,
                );
            },
            None => {},
        }
        events
    }

    /// Start a craft for a connection's player.
    pub fn handle_craft_start(
        &mut self,
        conn_id: u64,
        payload: CraftingStartRequest,
        now_ms: u64,
    ) -> (events: Vec<OutEvent>)
        requires
            old(self).wf(),
            now_ms <= 4_000_000_000_000,
        ensures
            final(self).wf(),
            // A connection without a player is ignored outright.
            !spec_conn_mapped(*old(self), conn_id) ==> events@.len() == 0 && *final(self) == *old(
                self,
            ),
    {
        let mut events: Vec<OutEvent> = Vec::new();
        let player_id = match self.player_of_conn(conn_id) {
            Some(p) => p,
            None => {
                return events;
            },
        };
        let zi = match self.zone_of_player(player_id) {
            Some(z) => z,
            None => {
                return events;
            },
        };
        let ppi = match self.zones[zi].player_index(player_id) {
            Some(i) => i,
            None => {
                return events;
            },
        };
        let qi = match self.crafting_queue_index(player_id) {
            Some(i) => i,
            None => {
                return events;
            },
        };
        proof {
            assert(self.zones@[zi as int].wf());
            assert(self.zones@[zi as int].players@[ppi as int].wf());
        }
        // Take the inventory out, run the craft, put it back.
        let result = {
            let zone = &mut self.zones[zi];
            let p = &mut zone.players[ppi];
            let inv = &mut p.inventory;
            let queue = &mut self.crafting_queues[qi];
            try_start_craft(inv, queue, payload.recipe_id.as_str(), now_ms)
        };
        let (job_id, completion) = match &result.job {
            Some(j) => (Some(j.job_id), Some(j.end_time_ms)),
            None => (None, None),
        };
        events.push(
            OutEvent::ToConn {
                conn_id,
                type_id: crate::codec::CRAFT_STATUS,
                payload: OutPayload::CraftingStart(
                    CraftingStartResponse {
                        success: result.success,
                        error: result.reason,
                        job_id,
                        estimated_completion_ms: completion,
                    },
                ),
            },
        );
        events
    }
}

impl GameServer {
    /// Place a market order for a connection's player: escrow, matching,
    /// settlement of every trade, and notifications for both parties.
    #[verifier::rlimit(100)]
    pub fn handle_market_place_order(
        &mut self,
        conn_id: u64,
        payload: MarketOrderRequest,
        now_ms: u64,
    ) -> (events: Vec<OutEvent>)
        requires
            old(self).wf(),
        ensures
            final(self).wf(),
            // A connection without a player is ignored outright.
            !spec_conn_mapped(*old(self), conn_id) ==> events@.len() == 0 && *final(self) == *old(
                self,
            ),
            // Whenever the handler speaks, the last word is the order
            // response to the requester.
            events@.len() > 0 ==> (events@.last() matches OutEvent::ToConn {
                conn_id: c,
                type_id: t,
                payload: OutPayload::MarketOrder(_),
                ..
            } && c == conn_id && t == crate::codec::MARKET_ORDER_UPDATE),
    {
        let mut events: Vec<OutEvent> = Vec::new();
        let player_id = match self.player_of_conn(conn_id) {
            Some(p) => p,
            None => {
                return events;
            },
        };
        let zi = match self.zone_of_player(player_id) {
            Some(z) => z,
            None => {
                return events;
            },
        };
        let ppi = match self.zones[zi].player_index(player_id) {
            Some(i) => i,
            None => {
                return events;
            },
        };

        let side = if str_eq(payload.side.as_str(), "buy") {
            OrderSide::Buy
        } else if str_eq(payload.side.as_str(), "sell") {
            OrderSide::Sell
        } else {
            events.push(
                OutEvent::ToConn {
                    conn_id,
                    type_id: crate::codec::MARKET_ORDER_UPDATE,
                    payload: OutPayload::MarketOrder(
                        MarketOrderResponse {
                            success: false,
                            error: Some("Invalid order side".to_owned()),
                            order_id: None,
                            filled_immediately: None,
                        },
                    ),
                },
            );
            return events;
        };

        proof {
            assert(self.zones@[zi as int].wf());
            assert(self.zones@[zi as int].players@[ppi as int].wf());
        }
        let result = {
            let zone = &mut self.zones[zi];
            let p = &mut zone.players[ppi];
            self.market.place_order(
                player_id,
                payload.item_type.as_str(),
                payload.quantity,
                payload.price_centi,
                side,
                &mut p.inventory,
                now_ms,
            )
        };

        match result.error {
            Some(e) => {
                events.push(
                    OutEvent::ToConn {
                        conn_id,
                        type_id: crate::codec::MARKET_ORDER_UPDATE,
                        payload: OutPayload::MarketOrder(
                            MarketOrderResponse {
                                success: false,
                                error: Some(e),
                                order_id: None,
                                filled_immediately: None,
                            },
                        ),
                    },
                );
                return events;
            },
            None => {},
        }
        let order = match result.order {
            Some(o) => o,
            None => {
                return events;
            },
        };

        // Settle each trade: seller proceeds, buyer items, buyer refund.
        proof {
            if side is Buy {
                assert(order.quantity * order.price_per_unit <= u64::MAX);
            }
        }
        let trades = result.trades;
        let nt = trades.len();
        for t in 0..nt
            invariant
                nt == trades@.len(),
                self.wf(),
                forall|k: int| 0 <= k < trades@.len() ==> crate::market::trade_wf(
                    #[trigger] trades@[k],
                ),
                forall|k: int|
                    0 <= k < trades@.len() ==> (side is Buy ==> (#[trigger] trades@[k]).buyer_id
                        == player_id && trades@[k].price_per_unit <= order.price_per_unit),
                order.quantity * order.price_per_unit <= u64::MAX || side is Sell,
        {
            let trade = &trades[t];

            // Seller proceeds.
            match self.zone_of_player(trade.seller_id) {
                Some(szi) => {
                    match self.zones[szi].player_index(trade.seller_id) {
                        Some(spi) => {
                            proof {
                                assert(self.zones@[szi as int].wf());
                                assert(self.zones@[szi as int].players@[spi as int].wf());
                            }
                            let zone = &mut self.zones[szi];
                            let p = &mut zone.players[spi];
                            apply_trade_to_seller(&mut p.inventory, trade);
                        },
                        None => {},
                    }
                },
                None => {},
            }

            // Buyer items, and a refund when the buy paid above the
            // execution price.
            match self.zone_of_player(trade.buyer_id) {
                Some(bzi) => {
                    match self.zones[bzi].player_index(trade.buyer_id) {
                        Some(bpi) => {
                            proof {
                                assert(self.zones@[bzi as int].wf());
                                assert(self.zones@[bzi as int].players@[bpi as int].wf());
                            }
                            let zone = &mut self.zones[bzi];
                            let p = &mut zone.players[bpi];
                            apply_trade_to_buyer(&mut p.inventory, trade);
                        },
                        None => {},
                    }
                },
                None => {},
            }
            let is_buy = match side {
                OrderSide::Buy => true,
                OrderSide::Sell => false,
            };
            if is_buy && order.price_per_unit > trade.price_per_unit
                && trade.quantity <= order.quantity {
                match self.zone_of_player(trade.buyer_id) {
                    Some(bzi) => {
                        match self.zones[bzi].player_index(trade.buyer_id) {
                            Some(bpi) => {
                                proof {
                                    assert(self.zones@[bzi as int].wf());
                                    assert(self.zones@[bzi as int].players@[bpi as int].wf());
                                    assert(trades@[t as int].quantity * order.price_per_unit
                                        <= u64::MAX) by (nonlinear_arith)
                                        requires
                                            0 <= trades@[t as int].quantity <= order.quantity,
                                            order.quantity * order.price_per_unit <= u64::MAX,
                                            order.price_per_unit >= 0,
                                    ;
                                }
                                let zone = &mut self.zones[bzi];
                                let p = &mut zone.players[bpi];
                                apply_buy_refund(&mut p.inventory, trade, order.price_per_unit);
                            },
                            None => {},
                        }
                    },
                    None => {},
                }
            }

            // Notifications: the buyer's copy carries a zero fee, the
            // seller's the full fee.
            match self.conn_of_player(trade.buyer_id) {
                Some(bc) => {
                    events.push(
                        OutEvent::ToConn {
                            conn_id: bc,
                            type_id: crate::codec::MARKET_TRADE_EXECUTED,
                            payload: OutPayload::MarketTrade(
                                MarketTradeExecutedPayload {
                                    order_id: trade.buy_order_id,
                                    filled_qty: trade.quantity,
                                    price_centi: trade.price_per_unit,
                                    fee_centi: 0,
                                },
                            ),
                        },
                    );
                },
                None => {},
            }
            match self.conn_of_player(trade.seller_id) {
                Some(sc) => {
                    events.push(
                        OutEvent::ToConn {
                            conn_id: sc,
                            type_id: crate::codec::MARKET_TRADE_EXECUTED,
                            payload: OutPayload::MarketTrade(
                                MarketTradeExecutedPayload {
                                    order_id: trade.sell_order_id,
                                    filled_qty: trade.quantity,
                                    price_centi: trade.price_per_unit,
                                    fee_centi: trade.fee,
                                },
                            ),
                        },
                    );
                },
                None => {},
            }

            // A sale advances sell objectives.
            let is_sell = match side {
                OrderSide::Sell => true,
                OrderSide::Buy => false,
            };
            if is_sell {
                let item_copy = trades[t].item_type.clone();
                let qty = trades[t].quantity;
                let seller = trades[t].seller_id;
                self.update_quest_objectives(
                    seller,
                    QuestObjectiveType::Sell,
                    item_copy.as_str(),
                    qty,
                    &mut events,
                );
            }
        }

        let filled = if order.filled_quantity > 0 {
            Some(order.filled_quantity)
        } else {
            None
        };
        events.push(
            OutEvent::ToConn {
                conn_id,
                type_id: crate::codec::MARKET_ORDER_UPDATE,
                payload: OutPayload::MarketOrder(
                    MarketOrderResponse {
                        success: true,
                        error: None,
                        order_id: Some(order.order_id),
                        filled_immediately: filled,
                    },
                ),
            },
        );
        events
    }

    /// Cancel one of the player's resting orders.
    pub fn handle_market_cancel_order(
        &mut self,
        conn_id: u64,
        payload: MarketCancelRequest,
    ) -> (events: Vec<OutEvent>)
        requires
            old(self).wf(),
        ensures
            final(self).wf(),
            // A connection without a player is ignored outright.
            !spec_conn_mapped(*old(self), conn_id) ==> events@.len() == 0 && *final(self) == *old(
                self,
            ),
    {
        let mut events: Vec<OutEvent> = Vec::new();
        let player_id = match self.player_of_conn(conn_id) {
            Some(p) => p,
            None => {
                return events;
            },
        };
        let zi = match self.zone_of_player(player_id) {
            Some(z) => z,
            None => {
                return events;
            },
        };
        let ppi = match self.zones[zi].player_index(player_id) {
            Some(i) => i,
            None => {
                return events;
            },
        };
        proof {
            assert(self.zones@[zi as int].wf());
            assert(self.zones@[zi as int].players@[ppi as int].wf());
        }
        let result = {
            let zone = &mut self.zones[zi];
            let p = &mut zone.players[ppi];
            self.market.cancel_order(player_id, payload.order_id, &mut p.inventory)
        };
        events.push(
            OutEvent::ToConn {
                conn_id,
                type_id: crate::codec::MARKET_ORDER_UPDATE,
                payload: OutPayload::MarketCancel(
                    MarketCancelResponse { success: result.success, error: result.error },
                ),
            },
        );
        events
    }

    /// Send the aggregated book for one item.
    pub fn handle_market_request_book(
        &self,
        conn_id: u64,
        payload: MarketRequestBookPayload,
    ) -> (r: OutEvent)
        requires
            self.wf(),
    {
        let snapshot = self.market.get_order_book(payload.item_type.as_str());
        OutEvent::ToConn {
            conn_id,
            type_id: crate::codec::MARKET_ORDER_BOOK,
            payload: OutPayload::MarketBook(
                MarketOrderBookPayload {
                    item_type: payload.item_type,
                    buys: snapshot.buys,
                    sells: snapshot.sells,
                },
            ),
        }
    }

    /// A fire request for a connection's player.
    pub fn handle_fire_weapon_request(
        &mut self,
        conn_id: u64,
        payload: WeaponFireRequest,
        now_ms: u64,
    ) -> (events: Vec<OutEvent>)
        requires
            old(self).wf(),
        ensures
            final(self).wf(),
            // A connection without a player is ignored outright.
            !spec_conn_mapped(*old(self), conn_id) ==> events@.len() == 0 && *final(self) == *old(
                self,
            ),
    {
        let mut events: Vec<OutEvent> = Vec::new();
        let player_id = match self.player_of_conn(conn_id) {
            Some(p) => p,
            None => {
                return events;
            },
        };
        let zi = match self.zone_of_player(player_id) {
            Some(z) => z,
            None => {
                return events;
            },
        };
        let ppi = match self.zones[zi].player_index(player_id) {
            Some(i) => i,
            None => {
                return events;
            },
        };
        proof {
            assert(self.zones@[zi as int].wf());
            assert(self.zones@[zi as int].players@[ppi as int].wf());
        }
        let px = self.zones[zi].players[ppi].state.x;
        let py = self.zones[zi].players[ppi].state.y;
        let fx = clamp_facing(self.zones[zi].players[ppi].state.facing_x);
        let fy = clamp_facing(self.zones[zi].players[ppi].state.facing_y);
        let hp = match self.stats_index(player_id) {
            Some(si) => self.combat_stats[si].1.hp,
            None => 0,
        };
        let wi = match self.weapons_index(player_id) {
            Some(i) => i,
            None => {
                return events;
            },
        };
        let ci = match self.cooldowns_index(player_id) {
            Some(i) => i,
            None => {
                return events;
            },
        };
        if self.weapon_cooldowns[ci].1.len() != self.equipped_weapons[wi].1.len() {
            return events;
        }
        // The per-zone projectile list, created on first use.
        let pji = match self.projectiles_index(self.zones[zi].id.as_str()) {
            Some(i) => i,
            None => {
                let zid = self.zones[zi].id.clone();
                let i = self.zone_projectiles.len();
                let ghost before = self.zone_projectiles@;
                self.zone_projectiles.push((zid, Vec::new()));
                proof {
                    assert forall|a: int|
                        0 <= a < self.zone_projectiles@.len() implies (forall|b: int|
                        0 <= b < (#[trigger] self.zone_projectiles@[a]).1@.len() ==> (
                        #[trigger] self.zone_projectiles@[a].1@[b]).wf()) by {
                        if a < before.len() {
                            assert(self.zone_projectiles@[a] == before[a]);
                        }
                    }
                }
                i
            },
        };
        let zone_type = self.zones[zi].zone_type.clone();
        let pid = self.next_projectile_id;
        self.next_projectile_id = self.next_projectile_id.wrapping_add(1);

        let aim_x = clamp_to_world(payload.target_x);
        let aim_y = clamp_to_world(payload.target_y);

        let error = {
            // Split the borrows: weapons are read, cooldowns and
            // projectiles are written.
            let equipped = &self.equipped_weapons[wi].1;
            let cooldown_entry = &mut self.weapon_cooldowns[ci];
            let proj_entry = &mut self.zone_projectiles[pji];
            handle_fire_weapon(
                player_id,
                px,
                py,
                fx,
                fy,
                hp,
                payload.weapon_slot,
                aim_x,
                aim_y,
                zone_type.as_str(),
                equipped,
                &mut cooldown_entry.1,
                &mut proj_entry.1,
                pid,
                now_ms,
            )
        };
        let success = match &error {
            Some(_) => false,
            None => true,
        };
        events.push(
            OutEvent::ToConn {
                conn_id,
                type_id: crate::codec::HIT_CONFIRM,
                payload: OutPayload::FireResult(
                    WeaponFireResponse { success, error, projectile_id: Some(pid) },
                ),
            },
        );
        events
    }

    /// A respawn request: at or past five seconds after death the player
    /// returns at full strength on a fresh random spawn.
    pub fn handle_respawn_request(&mut self, conn_id: u64, now_ms: u64) -> (events: Vec<OutEvent>)
        requires
            old(self).wf(),
        ensures
            final(self).wf(),
            // A connection without a player is ignored outright.
            !spec_conn_mapped(*old(self), conn_id) ==> events@.len() == 0 && *final(self) == *old(
                self,
            ),
    {
        let mut events: Vec<OutEvent> = Vec::new();
        let player_id = match self.player_of_conn(conn_id) {
            Some(p) => p,
            None => {
                return events;
            },
        };
        let zi = match self.zone_of_player(player_id) {
            Some(z) => z,
            None => {
                return events;
            },
        };
        proof {
            assert(self.zones@[zi as int].wf());
        }
        let (sx, sy) = self.zones[zi].random_spawn_position();
        let death = self.death_time_of(player_id);
        let si = match self.stats_index(player_id) {
            Some(i) => i,
            None => {
                return events;
            },
        };
        let outcome = {
            let entry = &mut self.combat_stats[si];
            handle_respawn(&mut entry.1, death, now_ms, sx, sy)
        };
        match outcome {
            Some(o) => {
                self.set_death_time(player_id, None);
                match self.zones[zi].player_index(player_id) {
                    Some(ppi) => {
                        proof {
                            assert(self.zones@[zi as int].wf());
                            assert(self.zones@[zi as int].players@[ppi as int].wf());
                        }
                        let zone = &mut self.zones[zi];
                        let p = &mut zone.players[ppi];
                        p.state.x = o.x;
                        p.state.y = o.y;
                        p.state.vx = 0;
                        p.state.vy = 0;
                    },
                    None => {},
                }
                events.push(
                    OutEvent::ToConn {
                        conn_id,
                        type_id: crate::codec::RESPAWN,
                        payload: OutPayload::Respawn(
                            RespawnPayload { x: o.x, y: o.y, hp: o.hp, shield: o.shield },
                        ),
                    },
                );
            },
            None => {},
        }
        events
    }
}

impl GameServer {
    /// Equip an item out of the player's inventory; a replaced item
    /// returns to it.
    pub fn handle_equip_item(
        &mut self,
        conn_id: u64,
        payload: EquipItemRequest,
    ) -> (events: Vec<OutEvent>)
        requires
            old(self).wf(),
        ensures
            final(self).wf(),
            // A connection without a player is ignored outright.
            !spec_conn_mapped(*old(self), conn_id) ==> events@.len() == 0 && *final(self) == *old(
                self,
            ),
    {
        let mut events: Vec<OutEvent> = Vec::new();
        let player_id = match self.player_of_conn(conn_id) {
            Some(p) => p,
            None => {
                return events;
            },
        };
        let zi = match self.zone_of_player(player_id) {
            Some(z) => z,
            None => {
                return events;
            },
        };
        let ppi = match self.zones[zi].player_index(player_id) {
            Some(i) => i,
            None => {
                return events;
            },
        };
        let ei = match self.equipment_index(player_id) {
            Some(i) => i,
            None => {
                return events;
            },
        };
        proof {
            assert(self.zones@[zi as int].wf());
            assert(self.zones@[zi as int].players@[ppi as int].wf());
        }

        let has_item = self.zones[zi].players[ppi].inventory.has(payload.item_type.as_str(), 1);
        if !has_item {
            events.push(
                OutEvent::ToConn {
                    conn_id,
                    type_id: crate::codec::EQUIPMENT_UPDATE,
                    payload: OutPayload::EquipResult(
                        EquipItemResponse {
                            success: false,
                            error: Some("Item not in inventory".to_owned()),
                            unequipped_item: None,
                        },
                    ),
                },
            );
            return events;
        }

        proof {
            assert(self.player_equipment@[ei as int].1.wf());
        }
        let result = {
            let entry = &mut self.player_equipment[ei];
            entry.1.equip(payload.item_type.as_str())
        };
        if result.success {
            proof {
                assert(self.zones@[zi as int].wf());
                assert(self.zones@[zi as int].players@[ppi as int].wf());
            }
            let zone = &mut self.zones[zi];
            let p = &mut zone.players[ppi];
            p.inventory.remove(payload.item_type.as_str(), 1);
            match &result.old_item {
                Some(old_key) => {
                    p.inventory.add(old_key.as_str(), 1);
                },
                None => {},
            }
        }
        events.push(
            OutEvent::ToConn {
                conn_id,
                type_id: crate::codec::EQUIPMENT_UPDATE,
                payload: OutPayload::EquipResult(
                    EquipItemResponse {
                        success: result.success,
                        error: result.error,
                        unequipped_item: result.old_item,
                    },
                ),
            },
        );
        if result.success {
            self.push_equipment_update(player_id, conn_id, &mut events);
            self.push_ship_stats(player_id, conn_id, &mut events);
        }
        events
    }

    /// Unequip a slot; the removed item returns to the inventory.
    pub fn handle_unequip_item(
        &mut self,
        conn_id: u64,
        payload: UnequipItemRequest,
    ) -> (events: Vec<OutEvent>)
        requires
            old(self).wf(),
        ensures
            final(self).wf(),
            // A connection without a player is ignored outright.
            !spec_conn_mapped(*old(self), conn_id) ==> events@.len() == 0 && *final(self) == *old(
                self,
            ),
    {
        let mut events: Vec<OutEvent> = Vec::new();
        let player_id = match self.player_of_conn(conn_id) {
            Some(p) => p,
            None => {
                return events;
            },
        };
        let zi = match self.zone_of_player(player_id) {
            Some(z) => z,
            None => {
                return events;
            },
        };
        let ppi = match self.zones[zi].player_index(player_id) {
            Some(i) => i,
            None => {
                return events;
            },
        };
        let ei = match self.equipment_index(player_id) {
            Some(i) => i,
            None => {
                return events;
            },
        };
        let slot = match slot_for_index(payload.slot) {
            Some(s) => s,
            None => {
                events.push(
                    OutEvent::ToConn {
                        conn_id,
                        type_id: crate::codec::EQUIPMENT_UPDATE,
                        payload: OutPayload::UnequipResult(
                            UnequipItemResponse {
                                success: false,
                                error: Some("Invalid equipment slot".to_owned()),
                                unequipped_item: None,
                            },
                        ),
                    },
                );
                return events;
            },
        };
        proof {
            assert(self.player_equipment@[ei as int].1.wf());
        }
        let result = {
            let entry = &mut self.player_equipment[ei];
            entry.1.unequip(slot)
        };
        let success = match &result.removed_item {
            Some(_) => true,
            None => false,
        };
        match &result.removed_item {
            Some(removed) => {
                proof {
                    assert(self.zones@[zi as int].wf());
                    assert(self.zones@[zi as int].players@[ppi as int].wf());
                }
                let zone = &mut self.zones[zi];
                let p = &mut zone.players[ppi];
                p.inventory.add(removed.as_str(), 1);
            },
            None => {},
        }
        events.push(
            OutEvent::ToConn {
                conn_id,
                type_id: crate::codec::EQUIPMENT_UPDATE,
                payload: OutPayload::UnequipResult(
                    UnequipItemResponse {
                        success,
                        error: result.error,
                        unequipped_item: result.removed_item,
                    },
                ),
            },
        );
        if success {
            self.push_equipment_update(player_id, conn_id, &mut events);
            self.push_ship_stats(player_id, conn_id, &mut events);
        }
        events
    }

    /// Send the player's full equipment snapshot: one entry per slot.
    fn push_equipment_update(&self, player_id: u32, conn_id: u64, events: &mut Vec<OutEvent>)
        requires
            self.wf(),
        ensures
            spec_count_joined(final(events)@) == spec_count_joined(old(events)@),
            spec_count_left(final(events)@) == spec_count_left(old(events)@),
            final(events)@.len() >= old(events)@.len(),
            forall|k: int|
                0 <= k < old(events)@.len() ==> #[trigger] final(events)@[k] == old(events)@[k],
    {
        let ghost ev0 = events@;
        let ei = match self.equipment_index(player_id) {
            Some(i) => i,
            None => {
                return ;
            },
        };
        proof {
            assert(self.player_equipment@[ei as int].1.wf());
        }
        let slots = crate::equipment::all_slots();
        let mut out: Vec<EquipmentSlotState> = Vec::new();
        let ns = slots.len();
        for k in 0..ns
            invariant
                ns == slots@.len(),
                ei < self.player_equipment@.len(),
                self.player_equipment@[ei as int].1.wf(),
        {
            let item_type = match self.player_equipment[ei].1.get_slot(slots[k]) {
                Some(item) => Some(item.item_type),
                None => None,
            };
            out.push(
                EquipmentSlotState { slot_type: slots[k].as_str().to_owned(), item_type },
            );
        }
        events.push(
            OutEvent::ToConn {
                conn_id,
                type_id: crate::codec::EQUIPMENT_UPDATE,
                payload: OutPayload::EquipmentState(out),
            },
        );
        proof {
            lemma_counts_push(ev0, events@.last());
        }
    }

    /// Send the player's current ship stats.
    fn push_ship_stats(&self, player_id: u32, conn_id: u64, events: &mut Vec<OutEvent>)
        requires
            self.wf(),
        ensures
            spec_count_joined(final(events)@) == spec_count_joined(old(events)@),
            spec_count_left(final(events)@) == spec_count_left(old(events)@),
            final(events)@.len() >= old(events)@.len(),
            forall|k: int|
                0 <= k < old(events)@.len() ==> #[trigger] final(events)@[k] == old(events)@[k],
    {
        let ghost ev0 = events@;
        let level = match self.progression_index(player_id) {
            Some(i) => self.player_progression[i].1.level,
            None => 1,
        };
        let mods = match self.equipment_index(player_id) {
            Some(i) => {
                proof {
                    assert(self.player_equipment@[i as int].1.wf());
                }
                self.player_equipment[i].1.get_aggregate_stats()
            },
            None => crate::equipment::StatModifiers::zero(),
        };
        let level = if level < 1 {
            1
        } else if level > crate::progression::MAX_LEVEL {
            crate::progression::MAX_LEVEL
        } else {
            level
        };
        let stats = calculate_ship_stats(level, &mods);
        events.push(
            OutEvent::ToConn {
                conn_id,
                type_id: crate::codec::SHIP_STATS_UPDATE,
                payload: OutPayload::ShipStats(stats),
            },
        );
        proof {
            lemma_counts_push(ev0, events@.last());
        }
    }

    /// Accept a quest for a connection's player.
    pub fn handle_quest_accept(
        &mut self,
        conn_id: u64,
        payload: QuestAcceptRequest,
    ) -> (events: Vec<OutEvent>)
        requires
            old(self).wf(),
        ensures
            final(self).wf(),
            // A connection without a player is ignored outright.
            !spec_conn_mapped(*old(self), conn_id) ==> events@.len() == 0 && *final(self) == *old(
                self,
            ),
    {
        let mut events: Vec<OutEvent> = Vec::new();
        let player_id = match self.player_of_conn(conn_id) {
            Some(p) => p,
            None => {
                return events;
            },
        };
        let level = match self.progression_index(player_id) {
            Some(i) => self.player_progression[i].1.level,
            None => 1,
        };
        let qi = match self.quest_tracker_index(player_id) {
            Some(i) => i,
            None => {
                return events;
            },
        };
        proof {
            assert(self.quest_trackers@[qi as int].wf());
        }
        let error = {
            let tracker = &mut self.quest_trackers[qi];
            tracker.accept_quest(payload.quest_id.as_str(), level)
        };
        let success = match &error {
            Some(_) => false,
            None => true,
        };
        let quest = if success {
            crate::quest_db::get_quest_by_id(payload.quest_id.as_str())
        } else {
            None
        };
        events.push(
            OutEvent::ToConn {
                conn_id,
                type_id: crate::codec::QUEST_ACCEPT,
                payload: OutPayload::QuestAccept(QuestAcceptResponse { success, error, quest }),
            },
        );
        events
    }

    /// Abandon an active quest.
    pub fn handle_quest_abandon(
        &mut self,
        conn_id: u64,
        payload: QuestAbandonRequest,
    ) -> (events: Vec<OutEvent>)
        requires
            old(self).wf(),
        ensures
            final(self).wf(),
            // A connection without a player is ignored outright.
            !spec_conn_mapped(*old(self), conn_id) ==> events@.len() == 0 && *final(self) == *old(
                self,
            ),
    {
        let mut events: Vec<OutEvent> = Vec::new();
        let player_id = match self.player_of_conn(conn_id) {
            Some(p) => p,
            None => {
                return events;
            },
        };
        let qi = match self.quest_tracker_index(player_id) {
            Some(i) => i,
            None => {
                return events;
            },
        };
        proof {
            assert(self.quest_trackers@[qi as int].wf());
        }
        let success = {
            let tracker = &mut self.quest_trackers[qi];
            tracker.abandon_quest(payload.quest_id.as_str())
        };
        let error = if success {
            None
        } else {
            Some("Quest not found or not active".to_owned())
        };
        events.push(
            OutEvent::ToConn {
                conn_id,
                type_id: crate::codec::QUEST_ABANDON,
                payload: OutPayload::QuestAbandon(QuestAbandonResponse { success, error }),
            },
        );
        events
    }

    /// Send the player's active quests.
    pub fn handle_quest_list(&self, conn_id: u64) -> (events: Vec<OutEvent>)
    {
        let mut events: Vec<OutEvent> = Vec::new();
        let player_id = match self.player_of_conn(conn_id) {
            Some(p) => p,
            None => {
                return events;
            },
        };
        let qi = match self.quest_tracker_index(player_id) {
            Some(i) => i,
            None => {
                return events;
            },
        };
        let quests = self.quest_trackers[qi].export_active_quests();
        events.push(
            OutEvent::ToConn {
                conn_id,
                type_id: crate::codec::QUEST_LIST,
                payload: OutPayload::QuestList(ActiveQuestsResponse { quests }),
            },
        );
        events
    }

    /// Send the quests the player may accept now.
    pub fn handle_quest_available(&self, conn_id: u64) -> (events: Vec<OutEvent>)
        requires
            self.wf(),
    {
        let mut events: Vec<OutEvent> = Vec::new();
        let player_id = match self.player_of_conn(conn_id) {
            Some(p) => p,
            None => {
                return events;
            },
        };
        let level = match self.progression_index(player_id) {
            Some(i) => self.player_progression[i].1.level,
            None => 1,
        };
        let qi = match self.quest_tracker_index(player_id) {
            Some(i) => i,
            None => {
                return events;
            },
        };
        proof {
            assert(self.quest_trackers@[qi as int].wf());
        }
        let quests = self.quest_trackers[qi].get_available_quests(level);
        events.push(
            OutEvent::ToConn {
                conn_id,
                type_id: crate::codec::QUEST_AVAILABLE,
                payload: OutPayload::QuestAvailable(AvailableQuestsResponse { quests }),
            },
        );
        events
    }

    /// Dock at a station in the player's zone.
    pub fn handle_dock_request(&mut self, conn_id: u64, payload: DockRequest) -> (events: Vec<
        OutEvent,
    >)
        requires
            old(self).wf(),
        ensures
            final(self).wf(),
            // A connection without a player is ignored outright.
            !spec_conn_mapped(*old(self), conn_id) ==> events@.len() == 0 && *final(self) == *old(
                self,
            ),
    {
        let mut events: Vec<OutEvent> = Vec::new();
        let player_id = match self.player_of_conn(conn_id) {
            Some(p) => p,
            None => {
                return events;
            },
        };
        let zi = match self.zone_of_player(player_id) {
            Some(z) => z,
            None => {
                return events;
            },
        };
        let ppi = match self.zones[zi].player_index(player_id) {
            Some(i) => i,
            None => {
                return events;
            },
        };
        proof {
            assert(self.zones@[zi as int].wf());
            assert(self.zones@[zi as int].players@[ppi as int].wf());
        }
        let error = {
            let docking = &self.docking;
            let zone = &mut self.zones[zi];
            let p = &mut zone.players[ppi];
            docking.dock_at_station(p, payload.station_id.as_str())
        };
        let success = match &error {
            Some(_) => false,
            None => true,
        };
        let type_id = if success {
            crate::codec::DOCK_CONFIRM
        } else {
            crate::codec::DOCK_FAILED
        };
        events.push(
            OutEvent::ToConn {
                conn_id,
                type_id,
                payload: OutPayload::DockResult(UndockResponse { success, error }),
            },
        );
        events
    }

    /// Undock from the current station.
    pub fn handle_undock_request(&mut self, conn_id: u64) -> (events: Vec<OutEvent>)
        requires
            old(self).wf(),
        ensures
            final(self).wf(),
            // A connection without a player is ignored outright.
            !spec_conn_mapped(*old(self), conn_id) ==> events@.len() == 0 && *final(self) == *old(
                self,
            ),
    {
        let mut events: Vec<OutEvent> = Vec::new();
        let player_id = match self.player_of_conn(conn_id) {
            Some(p) => p,
            None => {
                return events;
            },
        };
        let zi = match self.zone_of_player(player_id) {
            Some(z) => z,
            None => {
                return events;
            },
        };
        let ppi = match self.zones[zi].player_index(player_id) {
            Some(i) => i,
            None => {
                return events;
            },
        };
        proof {
            assert(self.zones@[zi as int].wf());
            assert(self.zones@[zi as int].players@[ppi as int].wf());
        }
        let error = {
            let docking = &self.docking;
            let zone = &mut self.zones[zi];
            let p = &mut zone.players[ppi];
            docking.undock_from_station(p)
        };
        let success = match &error {
            Some(_) => false,
            None => true,
        };
        events.push(
            OutEvent::ToConn {
                conn_id,
                type_id: crate::codec::UNDOCK_CONFIRM,
                payload: OutPayload::UndockResult(UndockResponse { success, error }),
            },
        );
        events
    }

    /// The persistence snapshot of one player, for the host to store.
    pub fn build_save_data(&self, player_id: u32) -> (r: Option<PlayerSaveData>)
        requires
            self.wf(),
        ensures
            r is Some <==> spec_player_in_world(*self, player_id),
    {
        let zi = match self.zone_of_player(player_id) {
            Some(z) => z,
            None => {
                return None;
            },
        };
        let ppi = match self.zones[zi].player_index(player_id) {
            Some(i) => i,
            None => {
                proof {
                    assert(false);
                }
                return None;
            },
        };
        proof {
            assert(self.zones@[zi as int].wf());
            assert(self.zones@[zi as int].players@[ppi as int].wf());
        }
        let player = &self.zones[zi].players[ppi];

        let (hp, shield) = match self.stats_index(player_id) {
            Some(si) => (self.combat_stats[si].1.hp, self.combat_stats[si].1.shield),
            None => (100, 50),
        };
        let (level, xp) = match self.progression_index(player_id) {
            Some(pi) => (self.player_progression[pi].1.level, self.player_progression[pi].1.xp),
            None => (1, 0),
        };
        let account_id = {
            let mut found: Option<i64> = None;
            let n = self.player_accounts.len();
            for i in 0..n
                invariant
                    n == self.player_accounts@.len(),
            {
                if self.player_accounts[i].0 == player_id {
                    found = Some(self.player_accounts[i].1);
                }
            }
            found
        };

        let inventory_items = player.inventory.get_all().clone();

        let mut equipment_slots: Vec<EquipmentSlotRecord> = Vec::new();
        match self.equipment_index(player_id) {
            Some(ei) => {
                proof {
                    assert(self.player_equipment@[ei as int].1.wf());
                }
                let slots = crate::equipment::all_slots();
                let ns = slots.len();
                for k in 0..ns
                    invariant
                        ns == slots@.len(),
                        ei < self.player_equipment@.len(),
                        self.player_equipment@[ei as int].1.wf(),
                {
                    match self.player_equipment[ei].1.get_slot(slots[k]) {
                        Some(item) => {
                            equipment_slots.push(
                                EquipmentSlotRecord {
                                    slot_type: slots[k].as_str().to_owned(),
                                    item_type: item.item_type,
                                },
                            );
                        },
                        None => {},
                    }
                }
            },
            None => {},
        }

        let quest_progress = match self.quest_tracker_index(player_id) {
            Some(qi) => self.quest_trackers[qi].export_active_quests(),
            None => Vec::new(),
        };

        Some(
            PlayerSaveData {
                account_id,
                player_id,
                name: player.name.clone(),
                level,
                xp,
                omen_balance_centi: player.inventory.omen_balance,
                zone_id: player.zone_id.clone(),
                x: player.state.x,
                y: player.state.y,
                hp,
                shield,
                inventory_items,
                equipment_slots,
                quest_progress,
            },
        )
    }

    /// A transport closed: save the player, drop the connection rows, and
    /// mark the player disconnected; the zone hears one departure.
    pub fn handle_disconnect(&mut self, conn_id: u64, now_ms: u64) -> (r: (
        Vec<OutEvent>,
        Option<PlayerSaveData>,
    ))
        requires
            old(self).wf(),
        ensures
            final(self).wf(),
            // The connection is always unmapped afterwards.
            !spec_conn_mapped(*final(self), conn_id),
            // An unmapped connection yields no snapshot and no events.
            !spec_conn_mapped(*old(self), conn_id) ==> r.0@.len() == 0 && r.1 is None,
            // A snapshot and the single departure broadcast go together:
            // both exactly when the mapped player stands in a zone.
            r.1 is Some <==> r.0@.len() == 1,
            r.0@.len() <= 1,
            spec_count_left(r.0@) == r.0@.len(),
    {
        let mut events: Vec<OutEvent> = Vec::new();
        proof {
            assert(spec_count_left(events@) == 0);
        }
        let player_id = match self.player_of_conn(conn_id) {
            Some(p) => p,
            None => {
                self.drop_conn_rows(conn_id);
                return (events, None);
            },
        };
        let save = self.build_save_data(player_id);
        self.drop_conn_rows(conn_id);

        match self.zone_of_player(player_id) {
            Some(zi) => {
                match self.zones[zi].player_index(player_id) {
                    Some(ppi) => {
                        proof {
                            assert(self.zones@[zi as int].wf());
                            assert(self.zones@[zi as int].players@[ppi as int].wf());
                        }
                        let zone_id = self.zones[zi].id.clone();
                        let zone = &mut self.zones[zi];
                        let p = &mut zone.players[ppi];
                        p.mark_disconnected(now_ms);
                        p.mining_node_id = None;
                        let ghost ed0 = events@;
                        events.push(
                            OutEvent::ToZoneExcept {
                                zone_id,
                                exclude_player: player_id,
                                type_id: crate::codec::PLAYER_LEFT,
                                payload: OutPayload::PlayerLeft(
                                    PlayerLeftPayload { id: player_id },
                                ),
                            },
                        );
                        proof {
                            lemma_counts_push(ed0, events@.last());
                        }
                    },
                    None => {},
                }
            },
            None => {},
        }
        (events, save)
    }

    /// Forget a connection's rows.
    fn drop_conn_rows(&mut self, conn_id: u64)
        requires
            old(self).wf(),
        ensures
            final(self).wf(),
            final(self).zones@ == old(self).zones@,
            forall|i: int|
                0 <= i < final(self).conn_players@.len() ==> (
                #[trigger] final(self).conn_players@[i]).0 != conn_id,
    {
        let mut kept: Vec<(u64, u32)> = Vec::new();
        let n = self.conn_players.len();
        for i in 0..n
            invariant
                n == self.conn_players@.len(),
                self.wf(),
                self.zones@ == old(self).zones@,
                forall|j: int| 0 <= j < kept@.len() ==> (#[trigger] kept@[j]).0 != conn_id,
        {
            if self.conn_players[i].0 != conn_id {
                kept.push(self.conn_players[i]);
            }
        }
        self.conn_players = kept;

        let mut kept_auth: Vec<(u64, i64)> = Vec::new();
        let na = self.authenticated_conns.len();
        for i in 0..na
            invariant
                na == self.authenticated_conns@.len(),
                self.wf(),
                self.zones@ == old(self).zones@,
        {
            if self.authenticated_conns[i].0 != conn_id {
                kept_auth.push(self.authenticated_conns[i]);
            }
        }
        self.authenticated_conns = kept_auth;
    }

    /// Dispatch one decoded request from a connection.
    pub fn handle_request(
        &mut self,
        conn_id: u64,
        request: ClientRequest,
        loaded_for_hello: Option<PlayerSaveData>,
        now_ms: u64,
    ) -> (events: Vec<OutEvent>)
        requires
            old(self).wf(),
            now_ms <= 4_000_000_000_000,
        ensures
            final(self).wf(),
            // An unknown frame is ignored outright.
            request is Unknown ==> events@.len() == 0 && *final(self) == *old(self),
            // A ping always gets exactly one reply.
            request is Ping ==> events@.len() == 1 && *final(self) == *old(self),
    {
        match request {
            ClientRequest::Hello(p) => self.handle_hello(conn_id, p, loaded_for_hello, now_ms),
            ClientRequest::Input(p) => {
                self.handle_input(conn_id, p, now_ms);
                Vec::new()
            },
            ClientRequest::Ping(p) => {
                let mut events: Vec<OutEvent> = Vec::new();
                let ev = self.handle_ping(conn_id, p);
                events.push(ev);
                events
            },
            ClientRequest::StartMining(p) => {
                self.handle_start_mining(conn_id, p);
                Vec::new()
            },
            ClientRequest::StopMining => {
                self.handle_stop_mining(conn_id);
                Vec::new()
            },
            ClientRequest::ZoneTransfer(p) => self.handle_zone_transfer(conn_id, p),
            ClientRequest::CraftStart(p) => self.handle_craft_start(conn_id, p, now_ms),
            ClientRequest::MarketPlaceOrder(p) => self.handle_market_place_order(
                conn_id,
                p,
                now_ms,
            ),
            ClientRequest::MarketCancelOrder(p) => self.handle_market_cancel_order(conn_id, p),
            ClientRequest::MarketRequestBook(p) => {
                let mut events: Vec<OutEvent> = Vec::new();
                let ev = self.handle_market_request_book(conn_id, p);
                events.push(ev);
                events
            },
            ClientRequest::FireWeapon(p) => self.handle_fire_weapon_request(conn_id, p, now_ms),
            ClientRequest::RespawnRequest => self.handle_respawn_request(conn_id, now_ms),
            ClientRequest::EquipItem(p) => self.handle_equip_item(conn_id, p),
            ClientRequest::UnequipItem(p) => self.handle_unequip_item(conn_id, p),
            ClientRequest::QuestAccept(p) => self.handle_quest_accept(conn_id, p),
            ClientRequest::QuestAbandon(p) => self.handle_quest_abandon(conn_id, p),
            ClientRequest::QuestList => self.handle_quest_list(conn_id),
            ClientRequest::QuestAvailable => self.handle_quest_available(conn_id),
            ClientRequest::DockRequest(p) => self.handle_dock_request(conn_id, p),
            ClientRequest::UndockRequest => self.handle_undock_request(conn_id),
            ClientRequest::Unknown => Vec::new(),
        }
    }
}

impl GameServer {
    /// One full simulation tick: NPC populations and behaviour, player
    /// movement and boundary handoff, mining, node respawns, crafting,
    /// combat, world-state broadcasts, and the periodic save sweep.
    /// Returns the events to deliver and any player snapshots to persist.
    pub fn game_tick(&mut self, now_ms: u64) -> (r: (Vec<OutEvent>, Vec<PlayerSaveData>))
        requires
            old(self).wf(),
            now_ms <= 4_000_000_000_000,
        ensures
            final(self).wf(),
            // The tick counter advances by exactly one, wrapping at the
            // top.
            final(self).tick == (if old(self).tick == u64::MAX {
                0u64
            } else {
                (old(self).tick + 1) as u64
            }),
            // Snapshots are swept exactly when the save interval has
            // elapsed, and the sweep resets the clock.
            r.1@.len() > 0 ==> now_ms >= old(self).last_save_time_ms && now_ms - old(
                self,
            ).last_save_time_ms >= config::AUTO_SAVE_INTERVAL_MS,
            (now_ms >= old(self).last_save_time_ms && now_ms - old(self).last_save_time_ms
                >= config::AUTO_SAVE_INTERVAL_MS) ==> final(self).last_save_time_ms == now_ms,
    {
        let mut events: Vec<OutEvent> = Vec::new();
        self.tick = self.tick.wrapping_add(1);
        proof {
            assert(self.tick == (if old(self).tick == u64::MAX {
                0u64
            } else {
                (old(self).tick + 1) as u64
            }));
        }
        let ghost t1 = self.tick;
        let dt_ms = config::TICK_INTERVAL_MS;

        // NPC populations and behaviour.
        self.tick_npcs(now_ms, dt_ms, &mut events);

        // Per-zone simulation.
        let nz = self.zones.len();
        for zi in 0..nz
            invariant
                nz == self.zones@.len(),
                self.wf(),
                now_ms <= 4_000_000_000_000,
                dt_ms <= 10_000,
                self.tick == t1,
                self.last_save_time_ms == old(self).last_save_time_ms,
        {
            self.tick_zone_players(zi, now_ms, dt_ms, &mut events);
            self.tick_zone_mining(zi, now_ms, &mut events);
            self.tick_zone_crafting(zi, now_ms, &mut events);
            self.tick_zone_combat(zi, now_ms, dt_ms, &mut events);
            self.broadcast_world_state(zi, now_ms, &mut events);
        }

        // Boundary handoff after movement.
        self.tick_boundary_transfers(&mut events);

        // Periodic save sweep.
        let mut saves: Vec<PlayerSaveData> = Vec::new();
        let due = now_ms >= self.last_save_time_ms && now_ms - self.last_save_time_ms
            >= config::AUTO_SAVE_INTERVAL_MS;
        if due {
            self.last_save_time_ms = now_ms;
            let nc = self.conn_players.len();
            for i in 0..nc
                invariant
                    nc == self.conn_players@.len(),
                    self.wf(),
                    self.tick == t1,
                    self.last_save_time_ms == now_ms,
            {
                let pid = self.conn_players[i].1;
                match self.build_save_data(pid) {
                    Some(d) => {
                        saves.push(d);
                    },
                    None => {},
                }
            }
        }
        (events, saves)
    }

    /// NPC spawn maintenance, behaviour, and attacks on players.
    fn tick_npcs(&mut self, now_ms: u64, dt_ms: u64, events: &mut Vec<OutEvent>)
        requires
            old(self).wf(),
            dt_ms <= 10_000,
        ensures
            final(self).wf(),
            final(self).tick == old(self).tick,
            final(self).last_save_time_ms == old(self).last_save_time_ms,
    {
        let spawn_events = {
            let zones = &self.zones;
            self.spawn_manager.process_spawn_tick(zones, dt_ms)
        };
        let ns = spawn_events.len();
        for i in 0..ns
            invariant
                self.tick == old(self).tick,
                self.last_save_time_ms == old(self).last_save_time_ms,
                ns == spawn_events@.len(),
                self.wf(),
        {
            events.push(
                OutEvent::ToZone {
                    zone_id: spawn_events[i].zone_id.clone(),
                    type_id: crate::codec::NPC_SPAWN,
                    payload: OutPayload::NpcSpawn(
                        crate::npc::NPCSpawnPayload {
                            npc_id: spawn_events[i].payload.npc_id,
                            npc_type: spawn_events[i].payload.npc_type,
                            x: spawn_events[i].payload.x,
                            y: spawn_events[i].payload.y,
                            faction: spawn_events[i].payload.faction,
                        },
                    ),
                },
            );
        }

        let attacks = {
            let zones = &self.zones;
            self.spawn_manager.process_ai_tick(zones, dt_ms)
        };
        let na = attacks.len();
        for i in 0..na
            invariant
                self.tick == old(self).tick,
                self.last_save_time_ms == old(self).last_save_time_ms,
                na == attacks@.len(),
                self.wf(),
        {
            let target = attacks[i].1.target_player_id;
            let damage = attacks[i].1.damage;
            let npc_id = attacks[i].0;
            match target {
                Some(pid) => {
                    match self.stats_index(pid) {
                        Some(si) => {
                            let result = {
                                let entry = &mut self.combat_stats[si];
                                apply_damage(&mut entry.1, damage, now_ms)
                            };
                            match self.conn_of_player(pid) {
                                Some(cid) => {
                                    events.push(
                                        OutEvent::ToConn {
                                            conn_id: cid,
                                            type_id: crate::codec::PLAYER_DAMAGED,
                                            payload: OutPayload::PlayerDamaged(
                                                PlayerDamagedPayload {
                                                    attacker_id: npc_id,
                                                    damage: result.total_damage,
                                                    hp: result.remaining_hp,
                                                    shield: result.remaining_shield,
                                                },
                                            ),
                                        },
                                    );
                                },
                                None => {},
                            }
                            if result.killed {
                                self.set_death_time(pid, Some(now_ms));
                                match self.zone_of_player(pid) {
                                    Some(zi) => {
                                        let zone_id = self.zones[zi].id.clone();
                                        events.push(
                                            OutEvent::ToZone {
                                                zone_id,
                                                type_id: crate::codec::PLAYER_DEATH,
                                                payload: OutPayload::PlayerDeath(
                                                    PlayerDeathPayload {
                                                        killer_id: npc_id,
                                                        victim_id: pid,
                                                    },
                                                ),
                                            },
                                        );
                                    },
                                    None => {},
                                }
                            }
                        },
                        None => {},
                    }
                },
                None => {},
            }
        }
    }

    /// Remove timed-out records and advance movement from queued inputs.
    fn tick_zone_players(&mut self, zi: usize, now_ms: u64, dt_ms: u64, events: &mut Vec<OutEvent>)
        requires
            old(self).wf(),
            zi < old(self).zones@.len(),
            dt_ms <= 10_000,
        ensures
            final(self).wf(),
            final(self).tick == old(self).tick,
            final(self).last_save_time_ms == old(self).last_save_time_ms,
            final(self).zones@.len() == old(self).zones@.len(),
    {
        // Drop players whose disconnect grace ran out.
        let mut timed_out: Vec<u32> = Vec::new();
        let np = self.zones[zi].players.len();
        for i in 0..np
            invariant
                self.tick == old(self).tick,
                self.last_save_time_ms == old(self).last_save_time_ms,
                zi < self.zones@.len(),
                np == self.zones@[zi as int].players@.len(),
                self.wf(),
        {
            if self.zones[zi].players[i].is_timed_out(now_ms) {
                let pid = self.zones[zi].players[i].id;
                timed_out.push(pid);
            }
        }
        let nt = timed_out.len();
        for i in 0..nt
            invariant
                self.tick == old(self).tick,
                self.last_save_time_ms == old(self).last_save_time_ms,
                nt == timed_out@.len(),
                zi < self.zones@.len(),
                self.wf(),
                self.zones@.len() == old(self).zones@.len(),
        {
            proof {
                assert(self.zones@[zi as int].wf());
            }
            let zone = &mut self.zones[zi];
            let removed = zone.remove_player(timed_out[i]);
        }

        // Movement: the latest queued input wins; no input coasts to rest.
        let np2 = self.zones[zi].players.len();
        for i in 0..np2
            invariant
                self.tick == old(self).tick,
                self.last_save_time_ms == old(self).last_save_time_ms,
                zi < self.zones@.len(),
                np2 == self.zones@[zi as int].players@.len(),
                self.wf(),
                self.zones@.len() == old(self).zones@.len(),
                dt_ms <= 10_000,
        {
            let skip = self.zones[zi].players[i].is_disconnected
                || self.zones[zi].players[i].is_docked;
            if !skip {
                proof {
                    assert(self.zones@[zi as int].wf());
                    assert(self.zones@[zi as int].players@[i as int].wf());
                }
                let inputs = {
                    let zone = &mut self.zones[zi];
                    let p = &mut zone.players[i];
                    p.consume_inputs()
                };
                let ni = inputs.len();
                if ni > 0 {
                    let latest = &inputs[ni - 1];
                    proof {
                        assert(self.zones@[zi as int].wf());
                        assert(self.zones@[zi as int].players@[i as int].wf());
                    }
                    let state_now = self.zones[zi].players[i].state;
                    let new_state = simulate_movement(
                        &state_now,
                        latest.input_x_milli,
                        latest.input_y_milli,
                        dt_ms,
                    );
                    let seq = latest.seq;
                    let zone = &mut self.zones[zi];
                    let p = &mut zone.players[i];
                    p.state = new_state;
                    p.last_processed_seq = seq;
                } else {
                    let zone = &mut self.zones[zi];
                    let p = &mut zone.players[i];
                    p.state.vx = 0;
                    p.state.vy = 0;
                }
            }
        }
    }

    /// Hand off any connected, undocked player who left their zone's
    /// bounds to the zone's first connection.
    fn tick_boundary_transfers(&mut self, events: &mut Vec<OutEvent>)
        requires
            old(self).wf(),
        ensures
            final(self).wf(),
            final(self).tick == old(self).tick,
            final(self).last_save_time_ms == old(self).last_save_time_ms,
    {
        let mut moves: Vec<(u32, usize, usize)> = Vec::new();
        let nz = self.zones.len();
        for zi in 0..nz
            invariant
                self.tick == old(self).tick,
                self.last_save_time_ms == old(self).last_save_time_ms,
                nz == self.zones@.len(),
                self.wf(),
                forall|t: int|
                    0 <= t < moves@.len() ==> (#[trigger] moves@[t]).1 < self.zones@.len()
                        && moves@[t].2 < self.zones@.len(),
        {
            let np = self.zones[zi].players.len();
            for i in 0..np
                invariant
                self.tick == old(self).tick,
                self.last_save_time_ms == old(self).last_save_time_ms,
                    zi < nz,
                    nz == self.zones@.len(),
                    np == self.zones@[zi as int].players@.len(),
                    self.wf(),
                    forall|t: int|
                        0 <= t < moves@.len() ==> (#[trigger] moves@[t]).1 < self.zones@.len()
                            && moves@[t].2 < self.zones@.len(),
            {
                let p = &self.zones[zi].players[i];
                if !p.is_disconnected && !p.is_docked && self.zones[zi].is_out_of_bounds(
                    p.state.x,
                    p.state.y,
                ) {
                    if self.zones[zi].connections.len() > 0 {
                        let target = self.zones[zi].connections[0].clone();
                        match self.zone_index(target.as_str()) {
                            Some(to_zi) => {
                                if to_zi != zi {
                                    let pid = self.zones[zi].players[i].id;
                                    moves.push((pid, zi, to_zi));
                                }
                            },
                            None => {},
                        }
                    }
                }
            }
        }
        let nm = moves.len();
        for m in 0..nm
            invariant
                self.tick == old(self).tick,
                self.last_save_time_ms == old(self).last_save_time_ms,
                nm == moves@.len(),
                self.wf(),
                forall|t: int|
                    0 <= t < moves@.len() ==> (#[trigger] moves@[t]).1 < self.zones@.len()
                        && moves@[t].2 < self.zones@.len(),
        {
            let (pid, from_zi, to_zi) = moves[m];
            if from_zi != to_zi {
                match self.transfer_player(pid, from_zi, to_zi) {
                    Some(mut evs) => {
                        events.append(&mut evs);
                    },
                    None => {},
                }
            }
        }
    }

    /// One mining tick for the zone: progress reports to the miners,
    /// depletion broadcasts, mining XP and quest credit, node respawns.
    fn tick_zone_mining(&mut self, zi: usize, now_ms: u64, events: &mut Vec<OutEvent>)
        requires
            old(self).wf(),
            zi < old(self).zones@.len(),
        ensures
            final(self).wf(),
            final(self).tick == old(self).tick,
            final(self).last_save_time_ms == old(self).last_save_time_ms,
            final(self).zones@.len() == old(self).zones@.len(),
    {
        proof {
            assert(self.zones@[zi as int].wf());
        }
        let zone_id = self.zones[zi].id.clone();
        let results = {
            let zone = &mut self.zones[zi];
            process_mining_tick(zone, now_ms)
        };
        let nr = results.len();
        for i in 0..nr
            invariant
                self.tick == old(self).tick,
                self.last_save_time_ms == old(self).last_save_time_ms,
                nr == results@.len(),
                self.wf(),
                self.zones@.len() == old(self).zones@.len(),
        {
            let pid = results[i].player_id;
            let conn = match self.conn_of_player(pid) {
                Some(c) => c,
                None => 0,
            };
            match &results[i].update {
                Some(u) => {
                    let extracted = u.amount_extracted_centi;
                    let resource = u.resource_type.clone();
                    events.push(
                        OutEvent::ToConn {
                            conn_id: conn,
                            type_id: crate::codec::MINING_UPDATE,
                            payload: OutPayload::MiningUpdate(
                                crate::mining::MiningUpdate {
                                    node_id: u.node_id,
                                    amount_extracted_centi: u.amount_extracted_centi,
                                    remaining_centi: u.remaining_centi,
                                    resource_type: u.resource_type.clone(),
                                    inventory_total: u.inventory_total,
                                },
                            ),
                        },
                    );
                    let whole = extracted / 100;
                    self.award_xp(pid, whole * XP_REWARD_MINING, events);
                    let whole32 = if whole > 0xFFFF_FFFF {
                        0xFFFF_FFFFu32
                    } else {
                        whole as u32
                    };
                    self.update_quest_objectives(
                        pid,
                        QuestObjectiveType::Mine,
                        resource.as_str(),
                        whole32,
                        events,
                    );
                },
                None => {},
            }
            match &results[i].depleted {
                Some(node_id) => {
                    events.push(
                        OutEvent::ToZone {
                            zone_id: zone_id.clone(),
                            type_id: crate::codec::NODE_DEPLETED,
                            payload: OutPayload::NodeDepleted(
                                NodeDepletedPayload { node_id: *node_id },
                            ),
                        },
                    );
                },
                None => {},
            }
        }

        // Node respawns.
        if zi < self.zones.len() {
            proof {
                assert(self.zones@[zi as int].wf());
            }
            let zone = &mut self.zones[zi];
            let respawned = zone.tick_respawns(now_ms);
        }
    }

    /// One crafting tick for every player of the zone: completions add
    /// their outputs (or fail on a full inventory), with XP and quest
    /// credit for each delivered craft.
    fn tick_zone_crafting(&mut self, zi: usize, now_ms: u64, events: &mut Vec<OutEvent>)
        requires
            old(self).wf(),
            zi < old(self).zones@.len(),
        ensures
            final(self).wf(),
            final(self).tick == old(self).tick,
            final(self).last_save_time_ms == old(self).last_save_time_ms,
            final(self).zones@.len() == old(self).zones@.len(),
    {
        let nq = self.crafting_queues.len();
        for qi in 0..nq
            invariant
                self.tick == old(self).tick,
                self.last_save_time_ms == old(self).last_save_time_ms,
                nq == self.crafting_queues@.len(),
                self.wf(),
                self.zones@.len() == old(self).zones@.len(),
                zi < self.zones@.len(),
        {
            let pid = self.crafting_queues[qi].player_id;
            let ppi_opt = self.zones[zi].player_index(pid);
            if let Some(ppi) = ppi_opt {
            proof {
                assert(self.zones@[zi as int].wf());
                assert(self.zones@[zi as int].players@[ppi as int].wf());
            }
            let completed = {
                let zone = &mut self.zones[zi];
                let p = &mut zone.players[ppi];
                let queue = &mut self.crafting_queues[qi];
                process_crafting_tick(queue, now_ms, &mut p.inventory)
            };
            {
                let queue = &mut self.crafting_queues[qi];
                let pruned = queue.prune_finished();
            }
            let conn = match self.conn_of_player(pid) {
                Some(c) => c,
                None => 0,
            };
            let nc = completed.len();
            for k in 0..nc
                invariant
                self.tick == old(self).tick,
                self.last_save_time_ms == old(self).last_save_time_ms,
                    nc == completed@.len(),
                    self.wf(),
                    self.zones@.len() == old(self).zones@.len(),
                    zi < self.zones@.len(),
                    nq == self.crafting_queues@.len(),
            {
                let recipe_id = completed[k].job.recipe_id.clone();
                if completed[k].added {
                    let (out_item, out_amount) = match completed[k].output_item {
                        Some(it) => (it.as_str().to_owned(), completed[k].output_amount),
                        None => (String::new(), 0),
                    };
                    events.push(
                        OutEvent::ToConn {
                            conn_id: conn,
                            type_id: crate::codec::CRAFT_COMPLETE,
                            payload: OutPayload::CraftComplete(
                                CraftCompletePayload {
                                    recipe_id,
                                    output_item: out_item.clone(),
                                    output_amount: out_amount,
                                },
                            ),
                        },
                    );
                    self.award_xp(pid, XP_REWARD_CRAFTING, events);
                    self.update_quest_objectives(
                        pid,
                        QuestObjectiveType::Craft,
                        out_item.as_str(),
                        out_amount,
                        events,
                    );
                } else {
                    events.push(
                        OutEvent::ToConn {
                            conn_id: conn,
                            type_id: crate::codec::CRAFT_FAILED,
                            payload: OutPayload::CraftFailed(
                                CraftFailedPayload {
                                    recipe_id,
                                    reason: "Inventory full or recipe error".to_owned(),
                                },
                            ),
                        },
                    );
                }
            }
            }
        }
    }

    /// One combat tick for the zone: projectiles advance and collide in
    /// combat zones, shields regenerate everywhere, and deaths stamp the
    /// respawn clock and pay the killer.
    fn tick_zone_combat(&mut self, zi: usize, now_ms: u64, dt_ms: u64, events: &mut Vec<OutEvent>)
        requires
            old(self).wf(),
            zi < old(self).zones@.len(),
            dt_ms <= 10_000,
        ensures
            final(self).wf(),
            final(self).tick == old(self).tick,
            final(self).last_save_time_ms == old(self).last_save_time_ms,
            final(self).zones@.len() == old(self).zones@.len(),
    {
        let zone_id = self.zones[zi].id.clone();
        let zone_type = self.zones[zi].zone_type.clone();

        // Spatial data of the connected players.
        let mut players: Vec<CombatPlayerData> = Vec::new();
        let np = self.zones[zi].players.len();
        for i in 0..np
            invariant
                self.tick == old(self).tick,
                self.last_save_time_ms == old(self).last_save_time_ms,
                zi < self.zones@.len(),
                np == self.zones@[zi as int].players@.len(),
                self.wf(),
                forall|t: int|
                    0 <= t < players@.len() ==> -WORLD_LIMIT_MILLI <= (#[trigger] players@[t]).x
                        <= WORLD_LIMIT_MILLI && -WORLD_LIMIT_MILLI <= players@[t].y
                        <= WORLD_LIMIT_MILLI,
        {
            proof {
                assert(self.zones@[zi as int].wf());
                assert(self.zones@[zi as int].players@[i as int].wf());
            }
            let p = &self.zones[zi].players[i];
            players.push(
                CombatPlayerData {
                    id: p.id,
                    x: p.state.x,
                    y: p.state.y,
                    is_disconnected: p.is_disconnected,
                },
            );
        }

        // Take this zone's projectiles out, tick, and put survivors back.
        let pji = self.projectiles_index(zone_id.as_str());
        let projectiles: Vec<Projectile> = match pji {
            Some(i) => {
                let ghost before = self.zone_projectiles@;
                let (zid, projs) = self.zone_projectiles.remove(i);
                proof {
                    before.remove_ensures(i as int);
                    assert forall|a: int|
                        0 <= a < self.zone_projectiles@.len() implies (forall|b: int|
                        0 <= b < (#[trigger] self.zone_projectiles@[a]).1@.len() ==> (
                        #[trigger] self.zone_projectiles@[a].1@[b]).wf()) by {
                        if a < i {
                            assert(self.zone_projectiles@[a] == before[a]);
                        } else {
                            assert(self.zone_projectiles@[a] == before[a + 1]);
                        }
                    }
                    assert(forall|b: int|
                        0 <= b < projs@.len() ==> (#[trigger] projs@[b]).wf());
                }
                projs
            },
            None => Vec::new(),
        };

        let (surviving, combat_events) = {
            let stats = &mut self.combat_stats;
            process_combat_tick(zone_type.as_str(), &players, stats, projectiles, dt_ms, now_ms)
        };

        let ghost before2 = self.zone_projectiles@;
        self.zone_projectiles.push((zone_id.clone(), surviving));
        proof {
            assert forall|a: int|
                0 <= a < self.zone_projectiles@.len() implies (forall|b: int|
                0 <= b < (#[trigger] self.zone_projectiles@[a]).1@.len() ==> (
                #[trigger] self.zone_projectiles@[a].1@[b]).wf()) by {
                if a < before2.len() {
                    assert(self.zone_projectiles@[a] == before2[a]);
                }
            }
        }

        // Deliver the combat events.
        let ne = combat_events.len();
        for k in 0..ne
            invariant
                self.tick == old(self).tick,
                self.last_save_time_ms == old(self).last_save_time_ms,
                ne == combat_events@.len(),
                self.wf(),
                self.zones@.len() == old(self).zones@.len(),
        {
            match &combat_events[k] {
                CombatEvent::HitConfirm { target_player_id, target_id, damage, target_hp, target_shield } => {
                    match self.conn_of_player(*target_player_id) {
                        Some(cid) => {
                            events.push(
                                OutEvent::ToConn {
                                    conn_id: cid,
                                    type_id: crate::codec::HIT_CONFIRM,
                                    payload: OutPayload::HitConfirm(
                                        HitConfirmPayload {
                                            target_id: *target_id,
                                            damage: *damage,
                                            target_hp: *target_hp,
                                            target_shield: *target_shield,
                                        },
                                    ),
                                },
                            );
                        },
                        None => {},
                    }
                },
                CombatEvent::PlayerDamaged { target_player_id, attacker_id, damage, hp, shield } => {
                    match self.conn_of_player(*target_player_id) {
                        Some(cid) => {
                            events.push(
                                OutEvent::ToConn {
                                    conn_id: cid,
                                    type_id: crate::codec::PLAYER_DAMAGED,
                                    payload: OutPayload::PlayerDamaged(
                                        PlayerDamagedPayload {
                                            attacker_id: *attacker_id,
                                            damage: *damage,
                                            hp: *hp,
                                            shield: *shield,
                                        },
                                    ),
                                },
                            );
                        },
                        None => {},
                    }
                },
                CombatEvent::Death { killer_id, victim_id } => {
                    let killer = *killer_id;
                    let victim = *victim_id;
                    events.push(
                        OutEvent::ToZone {
                            zone_id: zone_id.clone(),
                            type_id: crate::codec::PLAYER_DEATH,
                            payload: OutPayload::PlayerDeath(
                                PlayerDeathPayload { killer_id: killer, victim_id: victim },
                            ),
                        },
                    );
                    self.set_death_time(victim, Some(now_ms));
                    self.award_xp(killer, XP_REWARD_COMBAT_KILL, events);
                    self.update_quest_objectives(
                        killer,
                        QuestObjectiveType::Kill,
                        "player",
                        1,
                        events,
                    );
                },
            }
        }
    }

    /// Send the authoritative world state to every connected player of
    /// the zone, each copy carrying that player's acknowledged input.
    fn broadcast_world_state(&mut self, zi: usize, now_ms: u64, events: &mut Vec<OutEvent>)
        requires
            old(self).wf(),
            zi < old(self).zones@.len(),
        ensures
            final(self).wf(),
            final(self).tick == old(self).tick,
            final(self).last_save_time_ms == old(self).last_save_time_ms,
            final(self).zones@.len() == old(self).zones@.len(),
            *final(self) == *old(self),
    {
        let mut player_states: Vec<crate::player::PlayerState> = Vec::new();
        let np = self.zones[zi].players.len();
        for i in 0..np
            invariant
                self.tick == old(self).tick,
                self.last_save_time_ms == old(self).last_save_time_ms,
                zi < self.zones@.len(),
                np == self.zones@[zi as int].players@.len(),
                *self == *old(self),
                old(self).wf(),
        {
            if !self.zones[zi].players[i].is_disconnected {
                player_states.push(self.zones[zi].players[i].state);
            }
        }
        let mut node_states: Vec<ResourceNodeState> = Vec::new();
        let nn = self.zones[zi].resource_nodes.len();
        for i in 0..nn
            invariant
                self.tick == old(self).tick,
                self.last_save_time_ms == old(self).last_save_time_ms,
                zi < self.zones@.len(),
                nn == self.zones@[zi as int].resource_nodes@.len(),
                *self == *old(self),
                old(self).wf(),
        {
            node_states.push(node_to_state(&self.zones[zi].resource_nodes[i]));
        }
        let npc_states = self.spawn_manager.get_zone_npc_states(self.zones[zi].id.as_str());

        for i in 0..np
            invariant
                self.tick == old(self).tick,
                self.last_save_time_ms == old(self).last_save_time_ms,
                zi < self.zones@.len(),
                np == self.zones@[zi as int].players@.len(),
                *self == *old(self),
                old(self).wf(),
        {
            if !self.zones[zi].players[i].is_disconnected {
                let pid = self.zones[zi].players[i].id;
                let seq = self.zones[zi].players[i].last_processed_seq;
                match self.conn_of_player(pid) {
                    Some(cid) => {
                        let mut ps: Vec<crate::player::PlayerState> = Vec::new();
                        let nps = player_states.len();
                        for t in 0..nps
                            invariant
                self.tick == old(self).tick,
                self.last_save_time_ms == old(self).last_save_time_ms,
                                nps == player_states@.len(),
                                *self == *old(self),
                                old(self).wf(),
                        {
                            ps.push(player_states[t]);
                        }
                        let mut ns: Vec<ResourceNodeState> = Vec::new();
                        let nns = node_states.len();
                        for t in 0..nns
                            invariant
                self.tick == old(self).tick,
                self.last_save_time_ms == old(self).last_save_time_ms,
                                nns == node_states@.len(),
                                *self == *old(self),
                                old(self).wf(),
                        {
                            ns.push(clone_node_state(&node_states[t]));
                        }
                        let mut npcs: Vec<crate::npc::NPCStatePayload> = Vec::new();
                        let nnp = npc_states.len();
                        for t in 0..nnp
                            invariant
                self.tick == old(self).tick,
                self.last_save_time_ms == old(self).last_save_time_ms,
                                nnp == npc_states@.len(),
                                *self == *old(self),
                                old(self).wf(),
                        {
                            npcs.push(clone_npc_state(&npc_states[t]));
                        }
                        events.push(
                            OutEvent::ToConn {
                                conn_id: cid,
                                type_id: crate::codec::WORLD_STATE,
                                payload: OutPayload::WorldState(
                                    WorldStatePayload {
                                        tick: self.tick,
                                        server_time_ms: now_ms,
                                        last_processed_seq: seq,
                                        players: ps,
                                        resource_nodes: ns,
                                        npcs,
                                    },
                                ),
                            },
                        );
                    },
                    None => {},
                }
            }
        }
    }
}

fn clone_node_state(s: &ResourceNodeState) -> (r: ResourceNodeState)
{
    ResourceNodeState {
        id: s.id,
        node_type: s.node_type.clone(),
        x: s.x,
        y: s.y,
        current_amount_centi: s.current_amount_centi,
        total_amount_centi: s.total_amount_centi,
        quality: s.quality,
    }
}

fn clone_npc_state(s: &crate::npc::NPCStatePayload) -> (r: crate::npc::NPCStatePayload)
{
    crate::npc::NPCStatePayload {
        id: s.id,
        npc_type: s.npc_type,
        x: s.x,
        y: s.y,
        vx: s.vx,
        vy: s.vy,
        hp: s.hp,
        max_hp: s.max_hp,
        faction: s.faction,
        behavior_state: s.behavior_state,
    }
}

/// The equipment slot named by a wire index.
fn slot_for_index(slot: u32) -> (r: Option<EquipmentSlotType>)
{
    match slot {
        0 => Some(EquipmentSlotType::Weapon1),
        1 => Some(EquipmentSlotType::Weapon2),
        2 => Some(EquipmentSlotType::Shield),
        3 => Some(EquipmentSlotType::Engine),
        4 => Some(EquipmentSlotType::MiningLaser),
        5 => Some(EquipmentSlotType::Armor),
        6 => Some(EquipmentSlotType::Utility),
        _ => None,
    }
}

fn clamp_facing(v: i64) -> (r: i64)
    ensures
        -1_000 <= r <= 1_000,
{
    if v < -1_000 {
        -1_000
    } else if v > 1_000 {
        1_000
    } else {
        v
    }
}

fn clamp_to_world(v: i64) -> (r: i64)
    ensures
        -WORLD_LIMIT_MILLI <= r <= WORLD_LIMIT_MILLI,
{
    if v < -WORLD_LIMIT_MILLI {
        -WORLD_LIMIT_MILLI
    } else if v > WORLD_LIMIT_MILLI {
        WORLD_LIMIT_MILLI
    } else {
        v
    }
}

fn slot_record_item<'a>(records: &'a Vec<EquipmentSlotRecord>, i: usize) -> (r: &'a str)
    requires
        i < records@.len(),
    ensures
        r@ == records@[i as int].item_type@,
{
    records[i].item_type.as_str()
}

} // verus!

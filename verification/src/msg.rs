//! Wire message payloads: the plain values carried by each frame type.
//!
//! Positions and velocities are in milli-units, amounts in centi-units,
//! currency in centi-OMEN, times in milliseconds.  The host process maps
//! these to and from its wire encoding.

use vstd::prelude::*;

use crate::crafting::CraftJobStatus;
use crate::market::{OrderBookEntry, OrderSide, OrderStatus};
use crate::node::ResourceNode;
use crate::player::PlayerState;
use crate::quest::{Quest, QuestObjective, QuestProgress, QuestReward};

verus! {

/// A raw frame arriving from a connection.
pub struct ClientMessage {
    pub conn_id: u64,
    pub data: Vec<u8>,
}

/// A raw frame leaving for a connection.
pub struct ServerMessage {
    pub conn_id: u64,
    pub data: Vec<u8>,
}

pub struct HelloPayload {
    pub version: u32,
    pub name: String,
}

pub struct WelcomePayload {
    pub player_id: u32,
    pub tick_rate: u32,
    pub spawn_x: i64,
    pub spawn_y: i64,
}

pub struct InputMsgPayload {
    pub seq: u32,
    pub input_x_milli: i64,
    pub input_y_milli: i64,
    pub dt_ms: u64,
}

pub struct ResourceNodeState {
    pub id: u32,
    pub node_type: String,
    pub x: i64,
    pub y: i64,
    pub current_amount_centi: u64,
    pub total_amount_centi: u64,
    pub quality: u32,
}

pub struct PlayerJoinedPayload {
    pub id: u32,
    pub x: i64,
    pub y: i64,
}

pub struct PlayerLeftPayload {
    pub id: u32,
}

pub struct PingPayload {
    pub client_time_ms: u64,
}

pub struct PongPayload {
    pub client_time_ms: u64,
}

pub struct StartMiningPayload {
    pub node_id: u32,
}

pub struct NodeDepletedPayload {
    pub node_id: u32,
}

pub struct ZoneBoundsPayload {
    pub x_min: i64,
    pub x_max: i64,
    pub y_min: i64,
    pub y_max: i64,
}

pub struct ZoneInfoPayload {
    pub zone_id: String,
    pub zone_name: String,
    pub zone_type: String,
    pub bounds: ZoneBoundsPayload,
    pub players: Vec<PlayerState>,
    pub resource_nodes: Vec<ResourceNodeState>,
}

pub struct ZoneTransferPayload {
    pub target_zone_id: String,
}

pub struct WorldStatePayload {
    pub tick: u64,
    pub server_time_ms: u64,
    pub last_processed_seq: u32,
    pub players: Vec<PlayerState>,
    pub resource_nodes: Vec<ResourceNodeState>,
    pub npcs: Vec<crate::npc::NPCStatePayload>,
}

/// Snapshot of a node for a zone description.
pub fn node_to_state(node: &ResourceNode) -> (r: ResourceNodeState)
    ensures
        r.id == node.id,
        r.node_type@ == node.resource_type@,
        r.x == node.x,
        r.y == node.y,
        r.current_amount_centi == node.current_amount,
        r.total_amount_centi == node.total_amount,
        r.quality == node.quality,
{
    ResourceNodeState {
        id: node.id,
        node_type: node.resource_type.clone(),
        x: node.x,
        y: node.y,
        current_amount_centi: node.current_amount,
        total_amount_centi: node.total_amount,
        quality: node.quality,
    }
}

// ─── Auth ────────────────────────────────────────────────────────────

pub struct RegisterRequest {
    pub username: String,
    pub password: String,
    pub player_name: String,
}

pub struct RegisterResponse {
    pub success: bool,
    pub error: Option<String>,
    pub player_id: Option<u32>,
}

pub struct LoginRequest {
    pub username: String,
    pub password: String,
}

pub struct LoginResponse {
    pub success: bool,
    pub error: Option<String>,
    pub player_id: Option<u32>,
    pub player_name: Option<String>,
    pub session_token: Option<String>,
}

pub struct LogoutRequest {
}

pub struct LogoutResponse {
    pub success: bool,
}

pub struct AuthStatusRequest {
}

pub struct AuthStatusResponse {
    pub authenticated: bool,
    pub player_id: Option<u32>,
    pub player_name: Option<String>,
    pub session_expires_at_ms: Option<u64>,
}

// ─── Combat ──────────────────────────────────────────────────────────

pub struct WeaponFireRequest {
    pub weapon_slot: u32,
    pub target_x: i64,
    pub target_y: i64,
    pub target_id: Option<u32>,
}

pub struct WeaponFireResponse {
    pub success: bool,
    pub error: Option<String>,
    pub projectile_id: Option<u32>,
}

pub struct DeathNotification {
    pub killed_id: u32,
    pub killer_id: Option<u32>,
    pub respawn_time_ms: Option<u64>,
}

pub struct PlayerDeathPayload {
    pub killer_id: u32,
    pub victim_id: u32,
}

pub struct RespawnRequestPayload {
}

pub struct RespawnPayload {
    pub x: i64,
    pub y: i64,
    pub hp: u64,
    pub shield: u64,
}

pub struct HitConfirmPayload {
    pub target_id: u32,
    pub damage: u64,
    pub target_hp: u64,
    pub target_shield: u64,
}

pub struct PlayerDamagedPayload {
    pub attacker_id: u32,
    pub damage: u64,
    pub hp: u64,
    pub shield: u64,
}

// ─── Crafting ────────────────────────────────────────────────────────

pub struct CraftingStartRequest {
    pub recipe_id: String,
    pub quantity: u32,
}

pub struct CraftingStartResponse {
    pub success: bool,
    pub error: Option<String>,
    pub job_id: Option<u64>,
    pub estimated_completion_ms: Option<u64>,
}

pub struct CraftingCompleteNotification {
    pub job_id: u64,
    pub recipe_id: String,
    pub quantity: u32,
    pub items_created: Vec<CraftedItem>,
}

pub struct CraftedItem {
    pub item_type: String,
    pub quantity: u32,
}

pub struct CraftingCancelRequest {
    pub job_id: u64,
}

pub struct CraftingCancelResponse {
    pub success: bool,
    pub error: Option<String>,
}

pub struct CraftingQueueRequest {
}

pub struct CraftStartPayload {
    pub recipe_id: String,
}

pub struct CraftCompletePayload {
    pub recipe_id: String,
    pub output_item: String,
    pub output_amount: u32,
}

pub struct CraftFailedPayload {
    pub recipe_id: String,
    pub reason: String,
}

pub struct CraftJobPayload {
    pub job_id: u64,
    pub recipe_id: String,
    pub start_time_ms: u64,
    pub end_time_ms: u64,
    pub status: CraftJobStatus,
}

// ─── Docking ─────────────────────────────────────────────────────────

pub struct DockRequest {
    pub station_id: String,
}

pub struct UndockRequest {
}

pub struct UndockResponse {
    pub success: bool,
    pub error: Option<String>,
}

pub struct StationListRequest {
}

pub struct StationServiceRequest {
    pub service_type: String,
}

// ─── Equipment ───────────────────────────────────────────────────────

pub struct EquipItemRequest {
    pub item_type: String,
    pub slot: u32,
}

pub struct EquipItemResponse {
    pub success: bool,
    pub error: Option<String>,
    pub unequipped_item: Option<String>,
}

pub struct UnequipItemRequest {
    pub slot: u32,
}

pub struct UnequipItemResponse {
    pub success: bool,
    pub error: Option<String>,
    pub unequipped_item: Option<String>,
}

/// One slot of a full equipment snapshot.
pub struct EquipmentSlotState {
    pub slot_type: String,
    pub item_type: Option<String>,
}

pub struct EquipmentSlotInfo {
    pub slot: u32,
    pub name: String,
    pub current_item: Option<String>,
}

pub struct EquipItemPayload {
    pub slot_type: String,
    pub item_type: String,
}

pub struct UnequipItemPayload {
    pub slot_type: String,
}

// ─── Market ──────────────────────────────────────────────────────────

pub struct MarketOrderRequest {
    pub side: String,
    pub item_type: String,
    pub quantity: u32,
    /// Price per unit, centi-OMEN.
    pub price_centi: u64,
}

pub struct MarketOrderResponse {
    pub success: bool,
    pub error: Option<String>,
    pub order_id: Option<u64>,
    pub filled_immediately: Option<u32>,
}

pub struct MarketCancelRequest {
    pub order_id: u64,
}

pub struct MarketCancelResponse {
    pub success: bool,
    pub error: Option<String>,
}

pub struct MarketCancelOrderPayload {
    pub order_id: u64,
}

pub struct MarketRequestBookPayload {
    pub item_type: String,
}

pub struct MarketOrderBookPayload {
    pub item_type: String,
    pub buys: Vec<OrderBookEntry>,
    pub sells: Vec<OrderBookEntry>,
}

pub struct MarketTradeExecutedPayload {
    pub order_id: u64,
    pub filled_qty: u32,
    /// Execution price, centi-OMEN.
    pub price_centi: u64,
    /// Fee charged, centi-OMEN; zero on the buyer's copy.
    pub fee_centi: u64,
}

pub struct MarketDataRequest {
    pub item_type: String,
}

pub struct PlayerOrdersRequest {
}

// ─── Quests ──────────────────────────────────────────────────────────

pub struct QuestAcceptRequest {
    pub quest_id: String,
}

pub struct QuestAcceptResponse {
    pub success: bool,
    pub error: Option<String>,
    pub quest: Option<Quest>,
}

pub struct QuestAbandonRequest {
    pub quest_id: String,
}

pub struct QuestAbandonResponse {
    pub success: bool,
    pub error: Option<String>,
}

pub struct QuestProgressUpdate {
    pub quest_id: String,
    pub objectives: Vec<QuestObjective>,
}

pub struct QuestCompleteNotification {
    pub quest_id: String,
    pub quest_title: String,
    pub rewards: Vec<QuestReward>,
}

pub struct AvailableQuestsRequest {
}

pub struct AvailableQuestsResponse {
    pub quests: Vec<Quest>,
}

pub struct ActiveQuestsRequest {
}

pub struct ActiveQuestsResponse {
    pub quests: Vec<QuestProgress>,
}

pub struct QuestJournalRequest {
}

pub struct QuestJournalResponse {
    pub completed_quest_ids: Vec<String>,
    pub total_completed: u32,
}

} // verus!

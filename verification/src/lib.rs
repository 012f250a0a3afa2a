//! Authoritative core of a 2D multiplayer space-sandbox game server.
//!
//! The library holds the verified game logic: the wire framing, the zoned
//! simulation (movement, mining, zone transfer), the combat engine
//! (projectiles, damage, respawn), NPC behaviour, crafting, equipment,
//! progression, the quest tracker and the market order book, together with
//! the single-threaded dispatch that a host process drives from its socket
//! loop.  World distances are carried in thousandths of a world unit,
//! currency in hundredths of an OMEN, and time in milliseconds, so that
//! every rule is stated and proved over plain integers.

pub mod codec;
pub mod combat;
pub mod combat_manager;
pub mod config;
pub mod crafting;
pub mod docking;
pub mod equipment;
pub mod fixed;
pub mod inventory;
pub mod market;
pub mod mining;
pub mod movement;
pub mod msg;
pub mod node;
pub mod npc;
pub mod persist;
pub mod player;
pub mod progression;
pub mod quest;
pub mod quest_db;
pub mod quest_tracker;
pub mod rng;
pub mod server;
pub mod spawner;
pub mod util;
pub mod weapon;
pub mod zone;

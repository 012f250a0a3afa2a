//! Game constants.
//!
//! World distances are in milli-units (1/1000 of a world unit), currency in
//! centi-OMEN (1/100 of an OMEN), resource amounts in centi-units, and all
//! times in milliseconds.

use vstd::prelude::*;

verus! {

pub const TICK_RATE: u32 = 20;
pub const TICK_INTERVAL_MS: u64 = 50;
pub const MAX_PLAYERS: usize = 32;
/// Player movement speed, milli-units per second.
pub const MOVE_SPEED_MILLI: i64 = 600_000;
pub const DISCONNECT_TIMEOUT_MS: u64 = 60_000;
pub const MAX_INPUT_BUFFER_SIZE: usize = 10;
pub const PROTOCOL_VERSION: u32 = 1;

// Mining
/// Base extraction per tick, centi-units (10.00 per quality point).
pub const BASE_MINING_RATE_CENTI: u64 = 1_000;
/// Mining range, milli-units (100 units).
pub const MINING_RANGE_MILLI: i64 = 100_000;
pub const INVENTORY_CAPACITY: u32 = 200;

// Resource nodes
pub const NODE_RESPAWN_TIME_MS: u64 = 30_000;
/// Base node amount, centi-units (100.00).
pub const NODE_BASE_AMOUNT_CENTI: u64 = 10_000;
/// Extra fraction of the base amount per quality point above 1, hundredths.
pub const NODE_QUALITY_MULTIPLIER_CENTI: u64 = 50;
pub const NODES_PER_ZONE_DEFAULT: usize = 8;
pub const NODES_PER_ZONE_ASTEROID_BELT: usize = 20;

// Zones
pub const DEFAULT_ZONE_ID: &'static str = "uurf-orbit";

// Docking
/// Docking range, milli-units (500 units).
pub const DOCKING_RANGE_MILLI: i64 = 500_000;

// Persistence
pub const AUTO_SAVE_INTERVAL_MS: u64 = 60_000;

// Currency
/// Starting balance, centi-OMEN (10 000.00 OMEN).
pub const STARTING_OMEN_CENTI: u64 = 1_000_000;

} // verus!

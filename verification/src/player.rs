//! Player records: position and velocity, the bounded input queue,
//! connection state, docking, and the inventory.
//!
//! Positions and velocities are in milli-units; the facing is a unit
//! vector scaled by 1000; times are in milliseconds.

use vstd::prelude::*;

use crate::config;
use crate::inventory::Inventory;
use crate::util::min_u64;

verus! {

/// Furthest coordinate the world uses, milli-units.
pub const WORLD_LIMIT_MILLI: i64 = 1_000_000_000;

#[derive(Clone, Copy, PartialEq, Eq, Structural, Debug)]
pub struct PlayerInput {
    pub seq: u32,
    /// Input axes, thousandths in `[-1000, 1000]` after clamping.
    pub input_x_milli: i64,
    pub input_y_milli: i64,
    pub dt_ms: u64,
}

#[derive(Clone, Copy, PartialEq, Eq, Structural, Debug)]
pub struct PlayerState {
    pub id: u32,
    /// Position, milli-units.
    pub x: i64,
    pub y: i64,
    /// Velocity, milli-units per second.
    pub vx: i64,
    pub vy: i64,
    /// Facing, a unit vector scaled by 1000.
    pub facing_x: i64,
    pub facing_y: i64,
}

pub struct Player {
    pub id: u32,
    pub state: PlayerState,
    pub name: String,
    pub zone_id: String,
    pub last_processed_seq: u32,
    pub input_buffer: Vec<PlayerInput>,
    pub last_activity_ms: u64,
    pub is_disconnected: bool,
    pub disconnect_time_ms: Option<u64>,
    pub inventory: Inventory,
    pub mining_node_id: Option<u32>,
    pub is_docked: bool,
    pub docked_station_zone_id: Option<String>,
}

impl Player {
    /// The inventory is well formed, the input queue is bounded, the
    /// position stays in the world, and a docked player does not move.
    pub open spec fn wf(&self) -> bool {
        &&& self.inventory.wf()
        &&& self.input_buffer@.len() <= config::MAX_INPUT_BUFFER_SIZE
        &&& -WORLD_LIMIT_MILLI <= self.state.x <= WORLD_LIMIT_MILLI
        &&& -WORLD_LIMIT_MILLI <= self.state.y <= WORLD_LIMIT_MILLI
        &&& self.is_docked ==> self.state.vx == 0 && self.state.vy == 0
        &&& self.state.id == self.id
    }

    pub fn new(id: u32, spawn_x: i64, spawn_y: i64, name: String) -> (r: Self)
        requires
            -WORLD_LIMIT_MILLI <= spawn_x <= WORLD_LIMIT_MILLI,
            -WORLD_LIMIT_MILLI <= spawn_y <= WORLD_LIMIT_MILLI,
        ensures
            r.wf(),
            r.id == id,
            r.state.x == spawn_x,
            r.state.y == spawn_y,
            r.state.vx == 0,
            r.state.vy == 0,
            r.name == name,
            r.zone_id@ == config::DEFAULT_ZONE_ID@,
            r.last_processed_seq == 0,
            r.input_buffer@.len() == 0,
            r.is_disconnected == false,
            r.inventory.omen_balance == config::STARTING_OMEN_CENTI,
            r.inventory.spec_total() == 0,
            r.inventory.max_capacity == config::INVENTORY_CAPACITY,
            r.mining_node_id is None,
            r.is_docked == false,
    {
        Player {
            id,
            state: PlayerState {
                id,
                x: spawn_x,
                y: spawn_y,
                vx: 0,
                vy: 0,
                facing_x: 1000,
                facing_y: 0,
            },
            name,
            zone_id: config::DEFAULT_ZONE_ID.to_owned(),
            last_processed_seq: 0,
            input_buffer: Vec::new(),
            last_activity_ms: 0,
            is_disconnected: false,
            disconnect_time_ms: None,
            inventory: Inventory::new(config::INVENTORY_CAPACITY),
            mining_node_id: None,
            is_docked: false,
            docked_station_zone_id: None,
        }
    }

    /// Queue an input; a full queue drops its oldest entry to make room,
    /// so the newest input is always kept.  Marks the player active.
    pub fn push_input(&mut self, input: PlayerInput, now_ms: u64)
        requires
            old(self).wf(),
        ensures
            final(self).wf(),
            old(self).input_buffer@.len() < config::MAX_INPUT_BUFFER_SIZE ==> final(self).input_buffer@ == old(self).input_buffer@.push(input),
            old(self).input_buffer@.len() >= config::MAX_INPUT_BUFFER_SIZE ==> final(self).input_buffer@ == old(self).input_buffer@.subrange(1, old(self).input_buffer@.len() as int).push(input),
            final(self).input_buffer@.len() <= config::MAX_INPUT_BUFFER_SIZE,
            final(self).input_buffer@.len() > 0,
            final(self).input_buffer@[final(self).input_buffer@.len() - 1] == input,
            final(self).last_activity_ms == now_ms,
            final(self).state == old(self).state,
            final(self).inventory == old(self).inventory,
            final(self).is_docked == old(self).is_docked,
            final(self).mining_node_id == old(self).mining_node_id,
            final(self).zone_id == old(self).zone_id,
            final(self).id == old(self).id,
            final(self).is_disconnected == old(self).is_disconnected,
            final(self).last_processed_seq == old(self).last_processed_seq,
    {
        if self.input_buffer.len() >= config::MAX_INPUT_BUFFER_SIZE {
            self.input_buffer.remove(0);
        }
        self.input_buffer.push(input);
        self.last_activity_ms = now_ms;
    }

    /// Take all queued inputs, leaving the queue empty.
    pub fn consume_inputs(&mut self) -> (r: Vec<PlayerInput>)
        requires
            old(self).wf(),
        ensures
            final(self).wf(),
            r@ == old(self).input_buffer@,
            final(self).input_buffer@.len() == 0,
            final(self).state == old(self).state,
            final(self).inventory == old(self).inventory,
            final(self).id == old(self).id,
            final(self).is_docked == old(self).is_docked,
            final(self).mining_node_id == old(self).mining_node_id,
            final(self).zone_id == old(self).zone_id,
            final(self).last_processed_seq == old(self).last_processed_seq,
            final(self).is_disconnected == old(self).is_disconnected,
            final(self).last_activity_ms == old(self).last_activity_ms,
    {
        let mut out: Vec<PlayerInput> = Vec::new();
        let n = self.input_buffer.len();
        for i in 0..n
            invariant
                n == self.input_buffer@.len(),
                *self == *old(self),
                old(self).wf(),
                out@ == old(self).input_buffer@.subrange(0, i as int),
        {
            out.push(self.input_buffer[i]);
            proof {
                assert(old(self).input_buffer@.subrange(0, i as int).push(
                    old(self).input_buffer@[i as int],
                ) =~= old(self).input_buffer@.subrange(0, i + 1));
            }
        }
        proof {
            assert(old(self).input_buffer@.subrange(0, n as int) =~= old(self).input_buffer@);
        }
        self.input_buffer.clear();
        out
    }

    /// Mark the player disconnected, stamping the time.
    pub fn mark_disconnected(&mut self, now_ms: u64)
        requires
            old(self).wf(),
        ensures
            final(self).wf(),
            final(self).is_disconnected,
            final(self).disconnect_time_ms == Some(now_ms),
            final(self).state == old(self).state,
            final(self).inventory == old(self).inventory,
            final(self).id == old(self).id,
            final(self).zone_id == old(self).zone_id,
            final(self).mining_node_id == old(self).mining_node_id,
    {
        self.is_disconnected = true;
        self.disconnect_time_ms = Some(now_ms);
    }

    /// Whether a disconnected player's grace period has run out.
    pub fn is_timed_out(&self, now_ms: u64) -> (r: bool)
        ensures
            r == (self.is_disconnected && match self.disconnect_time_ms {
                Some(t) => now_ms >= t && now_ms - t > config::DISCONNECT_TIMEOUT_MS,
                None => false,
            }),
    {
        if !self.is_disconnected {
            return false;
        }
        match self.disconnect_time_ms {
            Some(t) => now_ms >= t && now_ms - t > config::DISCONNECT_TIMEOUT_MS,
            None => false,
        }
    }

    /// Sum of the held item counts.
    pub fn inventory_total(&self) -> (r: u32)
        requires
            self.wf(),
        ensures
            r == self.inventory.spec_total(),
    {
        self.inventory.total()
    }

    /// Take mined resources into the inventory: whole units are stored up
    /// to the free capacity; the amount credited (centi-units, capped at
    /// the head-room) is returned for reporting.
    pub fn add_resource(&mut self, resource_type: &str, amount_centi: u64) -> (r: u64)
        requires
            old(self).wf(),
        ensures
            final(self).wf(),
            ({
                let headroom = old(self).inventory.max_capacity - old(self).inventory.spec_total();
                let credited = if amount_centi < headroom * 100 {
                    amount_centi as int
                } else {
                    headroom * 100
                };
                &&& r == credited
                &&& final(self).inventory.spec_total() == old(self).inventory.spec_total() + (
                if credited / 100 > 0 {
                    credited / 100
                } else {
                    0
                })
                &&& (credited / 100 > 0 ==> final(self).inventory.spec_get(resource_type@) == old(self).inventory.spec_get(resource_type@) + credited / 100)
            }),
            final(self).inventory.omen_balance == old(self).inventory.omen_balance,
            final(self).inventory.max_capacity == old(self).inventory.max_capacity,
            final(self).state == old(self).state,
            final(self).id == old(self).id,
            final(self).zone_id == old(self).zone_id,
            final(self).mining_node_id == old(self).mining_node_id,
            final(self).is_docked == old(self).is_docked,
            final(self).is_disconnected == old(self).is_disconnected,
    {
        let total = self.inventory.total();
        let headroom = (self.inventory.max_capacity - total) as u64;
        let credited = min_u64(amount_centi, headroom * 100);
        let whole = (credited / 100) as u32;
        if whole > 0 {
            self.inventory.add(resource_type, whole);
        }
        credited
    }
}

} // verus!

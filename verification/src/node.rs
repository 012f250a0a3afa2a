//! Resource nodes: a finite amount that miners draw down, with a respawn
//! timer that refills a depleted node.
//!
//! Amounts are in centi-units, positions in milli-units, times in
//! milliseconds.

use vstd::prelude::*;

use crate::config;

verus! {

pub struct ResourceNode {
    pub id: u32,
    pub resource_type: String,
    /// Position, milli-units.
    pub x: i64,
    pub y: i64,
    /// Full amount, centi-units.
    pub total_amount: u64,
    /// Remaining amount, centi-units.
    pub current_amount: u64,
    /// Quality, 1 to 5; scales the extraction rate and the full amount.
    pub quality: u32,
    pub respawn_time_ms: u64,
    /// When the node ran dry, set exactly while it is empty.
    pub depleted_at: Option<u64>,
}

/// Full amount for a quality: the base amount plus half the base per quality
/// point above one.
pub open spec fn spec_total_for_quality(quality: nat) -> nat {
    (config::NODE_BASE_AMOUNT_CENTI as int + (quality - 1) * (
    config::NODE_BASE_AMOUNT_CENTI as int * config::NODE_QUALITY_MULTIPLIER_CENTI as int / 100)) as nat
}

impl ResourceNode {
    /// The remaining amount never exceeds the full amount, the quality is in
    /// range, and the depletion stamp is set exactly while the node is empty.
    pub open spec fn wf(&self) -> bool {
        &&& self.total_amount > 0
        &&& self.current_amount <= self.total_amount
        &&& 1 <= self.quality <= 5
        &&& self.depleted_at is Some <==> self.current_amount == 0
    }

    /// Create a full node; a quality outside 1 to 5 is clamped.
    pub fn new(id: u32, resource_type: String, x: i64, y: i64, quality: u32) -> (r: Self)
        ensures
            r.wf(),
            r.id == id,
            r.resource_type == resource_type,
            r.x == x,
            r.y == y,
            r.quality == if quality < 1 {
                1u32
            } else if quality > 5 {
                5u32
            } else {
                quality
            },
            r.total_amount == spec_total_for_quality(r.quality as nat),
            r.current_amount == r.total_amount,
            r.depleted_at is None,
            r.respawn_time_ms == config::NODE_RESPAWN_TIME_MS,
    {
        let quality = if quality < 1 {
            1
        } else if quality > 5 {
            5
        } else {
            quality
        };
        let step = config::NODE_BASE_AMOUNT_CENTI * config::NODE_QUALITY_MULTIPLIER_CENTI / 100;
        assert(step == 5000);
        assert(1 <= quality <= 5);
        let q1 = quality as u64 - 1;
        assert(q1 * step <= 20000) by (nonlinear_arith)
            requires
                q1 <= 4,
                step == 5000,
        ;
        let total = config::NODE_BASE_AMOUNT_CENTI + q1 * step;
        ResourceNode {
            id,
            resource_type,
            x,
            y,
            total_amount: total,
            current_amount: total,
            quality,
            respawn_time_ms: config::NODE_RESPAWN_TIME_MS,
            depleted_at: None,
        }
    }

    /// Whether anything is left to extract.
    pub fn is_available(&self) -> (r: bool)
        ensures
            r == (self.current_amount > 0),
    {
        self.current_amount > 0
    }

    /// Draw down the node by at most `amount`; returns what actually left
    /// the node.  When the node runs dry, the depletion stamp is set to
    /// `now_ms`.
    pub fn extract(&mut self, amount: u64, now_ms: u64) -> (r: u64)
        requires
            old(self).wf(),
        ensures
            final(self).wf(),
            r == if old(self).current_amount < amount {
                old(self).current_amount
            } else {
                amount
            },
            final(self).current_amount == old(self).current_amount - r,
            final(self).total_amount == old(self).total_amount,
            final(self).quality == old(self).quality,
            final(self).id == old(self).id,
            final(self).resource_type == old(self).resource_type,
            final(self).x == old(self).x,
            final(self).y == old(self).y,
            final(self).respawn_time_ms == old(self).respawn_time_ms,
            final(self).current_amount == 0 && old(self).current_amount > 0 ==> final(self).depleted_at == Some(now_ms),
            final(self).current_amount > 0 ==> final(self).depleted_at == old(self).depleted_at,
            old(self).current_amount == 0 ==> *final(self) == *old(self),
    {
        if self.current_amount == 0 {
            return 0;
        }
        let actual = if amount < self.current_amount {
            amount
        } else {
            self.current_amount
        };
        self.current_amount = self.current_amount - actual;
        if self.current_amount == 0 {
            self.depleted_at = Some(now_ms);
        }
        actual
    }

    /// Refill the node once its respawn time has passed; returns whether it
    /// just respawned.
    pub fn tick_respawn(&mut self, now_ms: u64) -> (r: bool)
        requires
            old(self).wf(),
        ensures
            final(self).wf(),
            r == match old(self).depleted_at {
                Some(t) => now_ms >= t && now_ms - t >= old(self).respawn_time_ms,
                None => false,
            },
            r ==> {
                &&& final(self).current_amount == final(self).total_amount
                &&& final(self).depleted_at is None
            },
            !r ==> *final(self) == *old(self),
            final(self).total_amount == old(self).total_amount,
            final(self).id == old(self).id,
    {
        match self.depleted_at {
            Some(t) => {
                if now_ms >= t && now_ms - t >= self.respawn_time_ms {
                    self.current_amount = self.total_amount;
                    self.depleted_at = None;
                    true
                } else {
                    false
                }
            },
            None => false,
        }
    }
}

/// Every well-formed node keeps its remaining amount between zero and its
/// full amount, and carries a depletion stamp exactly while it is empty.
pub proof fn lemma_node_invariant(node: &ResourceNode)
    requires
        node.wf(),
    ensures
        0 <= node.current_amount <= node.total_amount,
        node.depleted_at is Some <==> node.current_amount == 0,
{
}

} // verus!

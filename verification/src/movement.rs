//! Player movement: inputs are clamped, rotated through the fixed
//! isometric basis, normalised when the direction exceeds unit length,
//! and integrated over the tick.  Diagonal inputs never move faster than
//! the straight-line speed.

use vstd::prelude::*;

use crate::config;
use crate::fixed::{isqrt_ceil, lemma_isqrt_bounds, lemma_isqrt_ceil_bounds, spec_isqrt_ceil};
use crate::player::PlayerState;
use crate::player::WORLD_LIMIT_MILLI;

verus! {

/// One over the square root of two, in millionths: the isometric basis
/// component.
pub const INV_SQRT2_MICRO: i64 = 707_107;

/// Clamp an input axis to `[-1000, 1000]` thousandths.
pub fn clamp_input(v: i64) -> (r: i64)
    ensures
        r == if v < -1000 {
            -1000int
        } else if v > 1000 {
            1000int
        } else {
            v as int
        },
{
    if v < -1000 {
        -1000
    } else if v > 1000 {
        1000
    } else {
        v
    }
}

/// The scaled vector: the input divided by the larger of its own
/// length rounded up and `unit_scale`, times `speed`, rounded toward
/// zero, keeping the input's signs.
pub open spec fn spec_scale_vector(wx: int, wy: int, unit_scale: int, speed: int) -> (int, int) {
    let ax = if wx >= 0 {
        wx
    } else {
        -wx
    };
    let ay = if wy >= 0 {
        wy
    } else {
        -wy
    };
    let c0 = spec_isqrt_ceil(ax * ax + ay * ay);
    let c = if c0 > unit_scale {
        c0
    } else {
        unit_scale
    };
    let mx = ax * speed / c;
    let my = ay * speed / c;
    ((if wx >= 0 {
        mx
    } else {
        -mx
    }), (if wy >= 0 {
        my
    } else {
        -my
    }))
}

/// Scale the vector `(wx, wy)` to speed at most `speed`: the vector is
/// divided by the larger of its own length and `unit_scale`, then
/// multiplied by `speed`.  The result's squared length never exceeds
/// `speed²`, so a long input direction is normalised and a short one is
/// scaled down proportionally.
pub fn scale_vector(wx: i64, wy: i64, unit_scale: u64, speed: u64) -> (r: (i64, i64))
    requires
        -2_000_000_000 <= wx <= 2_000_000_000,
        -2_000_000_000 <= wy <= 2_000_000_000,
        1 <= unit_scale <= 4_000_000_000,
        1 <= speed <= 2_000_000,
    ensures
        r.0 == spec_scale_vector(wx as int, wy as int, unit_scale as int, speed as int).0,
        r.1 == spec_scale_vector(wx as int, wy as int, unit_scale as int, speed as int).1,
        r.0 * r.0 + r.1 * r.1 <= speed * speed,
        wx >= 0 ==> r.0 >= 0,
        wx <= 0 ==> r.0 <= 0,
        wy >= 0 ==> r.1 >= 0,
        wy <= 0 ==> r.1 <= 0,
        wx == 0 ==> r.0 == 0,
        wy == 0 ==> r.1 == 0,
        -2_000_000 <= r.0 <= 2_000_000,
        -2_000_000 <= r.1 <= 2_000_000,
{
    let ax = if wx >= 0 {
        wx as u64
    } else {
        (-wx) as u64
    };
    let ay = if wy >= 0 {
        wy as u64
    } else {
        (-wy) as u64
    };
    proof {
        assert(ax * ax <= 2_000_000_000 * 2_000_000_000) by (nonlinear_arith)
            requires
                ax <= 2_000_000_000,
        ;
        assert(ay * ay <= 2_000_000_000 * 2_000_000_000) by (nonlinear_arith)
            requires
                ay <= 2_000_000_000,
        ;
    }
    let s = ax * ax + ay * ay;
    let c0 = isqrt_ceil(s);
    let c = if c0 > unit_scale {
        c0
    } else {
        unit_scale
    };
    proof {
        assert(c >= 1);
        assert(s <= c * c) by (nonlinear_arith)
            requires
                c0 * c0 >= s,
                c >= c0,
                c0 >= 0,
        ;
        assert(ax * speed <= 2_000_000_000 * 2_000_000) by (nonlinear_arith)
            requires
                ax <= 2_000_000_000,
                speed <= 2_000_000,
        ;
        assert(ay * speed <= 2_000_000_000 * 2_000_000) by (nonlinear_arith)
            requires
                ay <= 2_000_000_000,
                speed <= 2_000_000,
        ;
    }
    let px = ax * speed;
    let py = ay * speed;
    let mx = px / c;
    let my = py / c;
    proof {
        // Each component is its exact truncated quotient, so the squared
        // magnitude is bounded by the pre-division magnitude over c².
        assert(mx * c <= px) by (nonlinear_arith)
            requires
                mx == px / c,
                c >= 1,
        ;
        assert(my * c <= py) by (nonlinear_arith)
            requires
                my == py / c,
                c >= 1,
        ;
        assert(mx <= px) by (nonlinear_arith)
            requires
                mx * c <= px,
                c >= 1,
                mx >= 0,
        ;
        assert(my <= py) by (nonlinear_arith)
            requires
                my * c <= py,
                c >= 1,
                my >= 0,
        ;
        assert((mx * mx) * (c * c) <= px * px) by (nonlinear_arith)
            requires
                mx * c <= px,
                mx >= 0,
                c >= 1,
                px >= 0,
        ;
        assert((my * my) * (c * c) <= py * py) by (nonlinear_arith)
            requires
                my * c <= py,
                my >= 0,
                c >= 1,
                py >= 0,
        ;
        assert(px * px + py * py == (s as int) * ((speed * speed) as int)) by (nonlinear_arith)
            requires
                px == ax * speed,
                py == ay * speed,
                s == ax * ax + ay * ay,
        ;
        assert((s as int) * ((speed * speed) as int) <= ((c * c) as int) * ((speed
            * speed) as int)) by (nonlinear_arith)
            requires
                s <= c * c,
                speed >= 0,
        ;
        assert(mx * mx + my * my <= speed * speed) by (nonlinear_arith)
            requires
                (mx * mx) * (c * c) + (my * my) * (c * c) <= ((c * c) as int) * ((speed
                    * speed) as int),
                c >= 1,
        ;
        assert(mx <= speed) by (nonlinear_arith)
            requires
                mx * mx + my * my <= speed * speed,
                mx >= 0,
                my >= 0,
                speed >= 0,
        ;
        assert(my <= speed) by (nonlinear_arith)
            requires
                mx * mx + my * my <= speed * speed,
                mx >= 0,
                my >= 0,
                speed >= 0,
        ;
    }
    proof {
        if px == 0 {
            assert(mx == 0) by (nonlinear_arith)
                requires
                    mx == px / c,
                    px == 0,
                    c >= 1,
            ;
        }
        if py == 0 {
            assert(my == 0) by (nonlinear_arith)
                requires
                    my == py / c,
                    py == 0,
                    c >= 1,
            ;
        }
        if wx == 0 {
            assert(ax == 0);
            assert(px == 0) by (nonlinear_arith)
                requires
                    px == ax * speed,
                    ax == 0,
            ;
        }
        if wy == 0 {
            assert(ay == 0);
            assert(py == 0) by (nonlinear_arith)
                requires
                    py == ay * speed,
                    ay == 0,
            ;
        }
    }
    let rx: i64 = if wx >= 0 {
        mx as i64
    } else {
        -(mx as i64)
    };
    let ry: i64 = if wy >= 0 {
        my as i64
    } else {
        -(my as i64)
    };
    proof {
        assert(rx * rx == mx * mx && ry * ry == my * my) by (nonlinear_arith)
            requires
                rx == mx || rx == -mx,
                ry == my || ry == -my,
        ;
        lemma_isqrt_ceil_bounds(s as int, c0 as int);
    }
    (rx, ry)
}

/// Advance a player state by one tick of input: the clamped input is
/// rotated through the isometric basis (forward and right both lean one
/// over root two), normalised when longer than a unit, and scaled to the
/// movement speed; the position advances by velocity times the tick; the
/// facing follows the velocity when it is not negligible.
pub fn simulate_movement(state: &PlayerState, input_x: i64, input_y: i64, dt_ms: u64) -> (r:
    PlayerState)
    requires
        -WORLD_LIMIT_MILLI <= state.x <= WORLD_LIMIT_MILLI,
        -WORLD_LIMIT_MILLI <= state.y <= WORLD_LIMIT_MILLI,
        dt_ms <= 10_000,
    ensures
        r.id == state.id,
        // Diagonal input is not faster: the speed never exceeds the
        // configured movement speed.
        r.vx * r.vx + r.vy * r.vy <= config::MOVE_SPEED_MILLI * config::MOVE_SPEED_MILLI,
        // The position advances by velocity times the tick, clamped to
        // the world.
        r.x == clamp_world(state.x + spec_displacement(r.vx as int, dt_ms as nat)),
        r.y == clamp_world(state.y + spec_displacement(r.vy as int, dt_ms as nat)),
        -WORLD_LIMIT_MILLI <= r.x <= WORLD_LIMIT_MILLI,
        -WORLD_LIMIT_MILLI <= r.y <= WORLD_LIMIT_MILLI,
        // Zero input leaves the player in place with zero velocity.
        input_x == 0 && input_y == 0 ==> r.vx == 0 && r.vy == 0 && r.x == state.x && r.y
            == state.y && r.facing_x == state.facing_x && r.facing_y == state.facing_y,
        // A full diagonal input moves at exactly the configured speed,
        // straight along the isometric forward axis.
        input_x == 1000 && input_y == 1000 ==> r.vx == config::MOVE_SPEED_MILLI && r.vy == 0,
{
    let ix = clamp_input(input_x);
    let iy = clamp_input(input_y);

    // Rotate through the isometric basis: forward = right = (1, ±1)/√2.
    let wx = INV_SQRT2_MICRO * (iy + ix);
    let wy = INV_SQRT2_MICRO * (iy - ix);

    let (vx, vy) = scale_vector(wx, wy, 1_000_000_000, config::MOVE_SPEED_MILLI as u64);

    let dx = displacement(vx, dt_ms);
    let dy = displacement(vy, dt_ms);
    let x = clamp_world_exec(state.x + dx);
    let y = clamp_world_exec(state.y + dy);

    // Facing follows the velocity when above the dead zone (0.01 units).
    let (facing_x, facing_y) = if vx > 10 || vx < -10 || vy > 10 || vy < -10 {
        scale_vector(vx, vy, 1, 1000)
    } else {
        (state.facing_x, state.facing_y)
    };

    proof {
        if input_x == 0 && input_y == 0 {
            assert(wx == 0 && wy == 0);
        }
        if input_x == 1000 && input_y == 1000 {
            assert(wx == 1_414_214_000 && wy == 0);
            assert(1_414_214_000int * 1_414_214_000int < (1_414_214_000int + 1) * (
            1_414_214_000int + 1)) by (nonlinear_arith);
            lemma_isqrt_bounds(1_414_214_000int * 1_414_214_000int, 1_414_214_000int);
            assert(1_414_214_000int * config::MOVE_SPEED_MILLI as int == 848_528_400_000_000int);
            assert(848_528_400_000_000int / 1_414_214_000int == config::MOVE_SPEED_MILLI as int);
        }
    }

    PlayerState { id: state.id, x, y, vx, vy, facing_x, facing_y }
}

/// Distance covered in `dt_ms` at velocity `v` (milli-units per second),
/// rounded toward zero.
pub open spec fn spec_displacement(v: int, dt_ms: nat) -> int {
    if v >= 0 {
        v * dt_ms / 1000
    } else {
        -((-v) * dt_ms / 1000)
    }
}

fn displacement(v: i64, dt_ms: u64) -> (r: i64)
    requires
        -2_000_000 <= v <= 2_000_000,
        dt_ms <= 10_000,
    ensures
        r == spec_displacement(v as int, dt_ms as nat),
        -20_000_000 <= r <= 20_000_000,
{
    let mag = if v >= 0 {
        v as u64
    } else {
        (-v) as u64
    };
    proof {
        assert(mag * dt_ms <= 2_000_000 * 10_000) by (nonlinear_arith)
            requires
                mag <= 2_000_000,
                dt_ms <= 10_000,
        ;
    }
    let d = mag * dt_ms / 1000;
    if v >= 0 {
        d as i64
    } else {
        -(d as i64)
    }
}

/// A world coordinate clamped to the playable range.
pub open spec fn clamp_world(v: int) -> int {
    if v < -WORLD_LIMIT_MILLI {
        -WORLD_LIMIT_MILLI as int
    } else if v > WORLD_LIMIT_MILLI {
        WORLD_LIMIT_MILLI as int
    } else {
        v
    }
}

fn clamp_world_exec(v: i64) -> (r: i64)
    ensures
        r == clamp_world(v as int),
{
    if v < -WORLD_LIMIT_MILLI {
        -WORLD_LIMIT_MILLI
    } else if v > WORLD_LIMIT_MILLI {
        WORLD_LIMIT_MILLI
    } else {
        v
    }
}

} // verus!

//! Fixed-point units, arena limits, and velocity scaling.
//!
//! A world unit is split into `SCALE` milliunits; all positions and
//! velocities are `i64` milliunit values, and tick durations are `u64`
//! microsecond values. Per tick a velocity contributes
//! `v * dt / MICROS_PER_SEC` milliunits of displacement, rounded toward
//! zero.

use vstd::prelude::*;

verus! {

/// Milliunits per world unit.
pub const SCALE: i64 = 1000;

/// Paddle speed in milliunits per second (500 world units per second).
pub const PADDLE_SPEED: i64 = 500 * SCALE;

/// Paddle height in milliunits (100 world units).
pub const PADDLE_HEIGHT: i64 = 100 * SCALE;

/// Paddle width in milliunits (10 world units).
pub const PADDLE_WIDTH: i64 = 10 * SCALE;

/// Half the paddle height in milliunits.
pub const HALF_PADDLE_HEIGHT: i64 = 50 * SCALE;

/// Half the paddle width in milliunits.
pub const HALF_PADDLE_WIDTH: i64 = 5 * SCALE;

/// Ball speed in milliunits per second (200 world units per second).
pub const BALL_SPEED: i64 = 200 * SCALE;

/// The squared ball speed, `BALL_SPEED * BALL_SPEED`: every reset
/// direction has this squared norm.
pub const SPEED_SQ: i64 = 40_000_000_000;

/// Microseconds per second.
pub const MICROS_PER_SEC: u64 = 1_000_000;

/// Largest accepted tick duration: one hour in microseconds.
pub const MAX_DT_MICROS: u64 = 3_600_000_000;

/// Largest accepted arena width or height in milliunits.
pub const MAX_DIM: u64 = 1_000_000_000_000;

/// Largest displacement one tick can produce:
/// `PADDLE_SPEED * MAX_DT_MICROS / MICROS_PER_SEC` milliunits.
pub const MAX_STEP: i64 = 1_800_000_000;

/// Largest coordinate magnitude the simulation accepts; far beyond any
/// reachable position, it only keeps `i64` arithmetic exact.
pub const POS_LIMIT: i64 = 1_000_000_000_000_000_000;

/// A planar vector of milliunit coordinates.
#[derive(Clone, Copy, PartialEq, Eq, Structural, Debug)]
pub struct Vec2 {
    pub x: i64,
    pub y: i64,
}

/// The displacement of a velocity component over a tick: `v * dt`
/// microunits brought back to milliunits, rounded toward zero.
pub open spec fn spec_scaled(v: int, dt: int) -> int {
    if v >= 0 {
        (v * dt) / (MICROS_PER_SEC as int)
    } else {
        -(((-v) * dt) / (MICROS_PER_SEC as int))
    }
}

/// The scaled displacement never exceeds `MAX_STEP` in magnitude for
/// velocities and durations within the model's limits.
pub proof fn lemma_scaled_bounded(v: int, dt: int)
    requires
        -PADDLE_SPEED <= v <= PADDLE_SPEED,
        0 <= dt <= MAX_DT_MICROS,
    ensures
        -MAX_STEP <= spec_scaled(v, dt) <= MAX_STEP,
{
    if v >= 0 {
        assert(v * dt <= PADDLE_SPEED * (MAX_DT_MICROS as int)) by (nonlinear_arith)
            requires
                0 <= v <= PADDLE_SPEED,
                0 <= dt <= MAX_DT_MICROS,
        ;
        assert(v * dt >= 0) by (nonlinear_arith)
            requires
                0 <= v,
                0 <= dt,
        ;
        assert((v * dt) / (MICROS_PER_SEC as int) <= MAX_STEP) by (nonlinear_arith)
            requires
                0 <= v * dt <= PADDLE_SPEED * (MAX_DT_MICROS as int),
        ;
    } else {
        assert((-v) * dt <= PADDLE_SPEED * (MAX_DT_MICROS as int)) by (nonlinear_arith)
            requires
                0 <= -v <= PADDLE_SPEED,
                0 <= dt <= MAX_DT_MICROS,
        ;
        assert((-v) * dt >= 0) by (nonlinear_arith)
            requires
                0 <= -v,
                0 <= dt,
        ;
        assert(((-v) * dt) / (MICROS_PER_SEC as int) <= MAX_STEP) by (nonlinear_arith)
            requires
                0 <= (-v) * dt <= PADDLE_SPEED * (MAX_DT_MICROS as int),
        ;
    }
}

/// Computes `spec_scaled(v, dt)` exactly in machine arithmetic.
pub fn scale_velocity(v: i64, dt: u64) -> (r: i64)
    requires
        -PADDLE_SPEED <= v <= PADDLE_SPEED,
        dt <= MAX_DT_MICROS,
    ensures
        r == spec_scaled(v as int, dt as int),
        -MAX_STEP <= r <= MAX_STEP,
{
    proof {
        lemma_scaled_bounded(v as int, dt as int);
    }
    if v >= 0 {
        proof {
            assert((v as u64) * dt <= (PADDLE_SPEED as u64) * MAX_DT_MICROS) by (nonlinear_arith)
                requires
                    v as u64 <= PADDLE_SPEED as u64,
                    dt <= MAX_DT_MICROS,
            ;
        }
        let m: u64 = (v as u64) * dt;
        let d: u64 = m / MICROS_PER_SEC;
        d as i64
    } else {
        let n: i64 = -v;
        proof {
            assert((n as u64) * dt <= (PADDLE_SPEED as u64) * MAX_DT_MICROS) by (nonlinear_arith)
                requires
                    n as u64 <= PADDLE_SPEED as u64,
                    dt <= MAX_DT_MICROS,
            ;
        }
        let m: u64 = (n as u64) * dt;
        let d: u64 = m / MICROS_PER_SEC;
        -(d as i64)
    }
}

} // verus!

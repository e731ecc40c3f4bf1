//! A verified two-player pong simulation core.
//!
//! Positions and velocities are fixed-point integers in milliunits
//! (one thousandth of a world unit); durations are in microseconds.
//! The simulation advances in fixed ticks: paddle motion, then ball
//! integration with vertical bounce and scoring, then paddle collision.

pub mod ball;
pub mod game;
pub mod input;
pub mod paddle;
mod rng;
pub mod score;
pub mod units;

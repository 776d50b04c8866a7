//! Core simulation of a minimal two-player Pong game: paddle movement,
//! ball integration, wall and paddle collision resolution, and scoring.
//!
//! Geometry is measured in fixed-point coordinates: positions and sizes are
//! in thousandths of a pixel (`SCALE` sub-units per pixel), velocities in
//! pixels per second, and frame deltas in milliseconds. A velocity multiplied
//! by a delta in milliseconds therefore yields a displacement in sub-units
//! exactly, with no rounding anywhere in the physics.

use vstd::prelude::*;

pub mod geometry;
pub mod laws;
pub mod rng;
pub mod state;
pub mod vec2;

verus! {

/// Sub-units per pixel.
pub const SCALE: i64 = 1000;

/// Horizontal inset of each paddle from its screen edge, in sub-units.
pub const PADDING: i64 = 40 * SCALE;

/// Paddle height, in sub-units.
pub const PADDLE_HEIGHT: i64 = 100 * SCALE;

/// Paddle width, in sub-units.
pub const PADDLE_WIDTH: i64 = 20 * SCALE;

/// Ball side length, in sub-units.
pub const BALL_SIZE: i64 = 30 * SCALE;

/// Half of the paddle width, in sub-units.
pub const PADDLE_HALF_W: i64 = 10 * SCALE;

/// Half of the paddle height, in sub-units.
pub const PADDLE_HALF_H: i64 = 50 * SCALE;

/// Half of the ball side length, in sub-units.
pub const BALL_HALF: i64 = 15 * SCALE;

/// Paddle speed, in pixels per second.
pub const PLAYER_SPEED: i64 = 500;

/// Magnitude of each ball velocity component, in pixels per second.
pub const BALL_SPEED: i64 = 500;

/// Largest screen dimension accepted, in sub-units (100 000 pixels).
pub const DIM_MAX: i64 = 100_000_000;

/// Largest coordinate magnitude a well-formed state may hold, in sub-units.
pub const POS_LIMIT: i64 = 1_000_000_000_000;

/// Largest velocity magnitude a well-formed state may hold, in pixels per second.
pub const VEL_LIMIT: i64 = 1_000_000;

} // verus!

//! A small 2D entity simulation: a player entity steered by keyboard intent,
//! autonomous mobs that pursue or orbit the player and repel each other,
//! frame-rate-independent integration, and painter's-algorithm render ordering.
//!
//! All coordinates are fixed-point integers in milli-pixels (see [`math::SCALE`]),
//! so every numeric step of the simulation is exact and verified.

pub mod avoid;
pub mod components;
pub mod frame;
pub mod geom;
pub mod input;
pub mod integrate;
pub mod gfx;
pub mod math;
pub mod render;
pub mod spawn;
pub mod vec2;
pub mod world;

use vstd::prelude::*;

verus! {

/// Logical window width in pixels.
pub const WINDOW_WIDHT: i32 = 1280;

/// Logical window height in pixels.
pub const WINDOW_HEIGHT: i32 = 720;

/// Largest position magnitude (milli-pixels) the avoidance passes accept:
/// squared distances of such positions still fit in an `i64`.
pub const POS_LIMIT: i64 = 1_000_000_000;

/// Largest position magnitude (milli-pixels) a frame may start from, so one
/// integration step cannot leave [`POS_LIMIT`].
pub const FRAME_POS_LIMIT: i64 = 200_000_000;

/// Largest entity count a frame accepts, bounding accumulated repulsion.
pub const MAX_ENTITIES: usize = 4096;

/// Largest acceleration magnitude (milli-units) the integrator accepts.
pub const ACC_LIMIT: i64 = 8_000_000;

/// Largest admissible product of speed (pixels per second) and elapsed time
/// (microseconds) for one frame.
pub const SPEED_DT_LIMIT: u64 = 100_000_000;

} // verus!

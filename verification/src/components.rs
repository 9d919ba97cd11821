//! The component records that can be attached to an entity.
//!
//! Every simulated entity carries one sprite, one acceleration and one
//! movement record; the player additionally carries the player tag, and each
//! mob the mob tag with its fixed orbit direction.

use vstd::prelude::*;
use crate::geom::{Point2D, Rect};
use crate::vec2::Vector2D;

verus! {

/// Visual footprint: a source region on the sprite sheet and the integer
/// screen position, which mirrors the movement position truncated to pixels.
#[derive(Clone, Copy, Debug, PartialEq, Eq, Structural)]
pub struct SpriteComp {
    pub srs: Rect,
    pub pos: Point2D,
}

/// Tag of the single user-controlled entity.
#[derive(Clone, Copy, Debug, PartialEq, Eq, Structural)]
pub struct PlayerComp {}

/// Tag of an autonomous entity, with its orbit-direction sign pattern.
#[derive(Clone, Copy, Debug, PartialEq, Eq, Structural)]
pub struct MobComp {
    pub rotate_dir: Vector2D,
}

/// The orbit direction holds a sign (`1` or `-1`) per axis; it is fixed at
/// spawn and never `(0, 0)`.
pub open spec fn mob_wf(m: MobComp) -> bool {
    &&& (m.rotate_dir.x == 1 || m.rotate_dir.x == -1)
    &&& (m.rotate_dir.y == 1 || m.rotate_dir.y == -1)
}

/// Instantaneous steering intent, reset to zero at the end of every
/// integration step.
#[derive(Clone, Copy, Debug, PartialEq, Eq, Structural)]
pub struct AccelerationComp {
    pub acceleration: Vector2D,
}

/// Authoritative kinematic position; the sprite position is a derived,
/// truncated view of it.
#[derive(Clone, Copy, Debug, PartialEq, Eq, Structural)]
pub struct MovementComp {
    pub position: Vector2D,
}

} // verus!

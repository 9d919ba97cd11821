//! World setup: spawns the single player at the screen center and a
//! configurable count of mobs at randomized screen-edge positions, each
//! with a random sprite-sheet region and orbit direction.

use vstd::prelude::*;
use rand::Rng;
use crate::components::{AccelerationComp, MobComp, MovementComp, PlayerComp, SpriteComp};
use crate::geom::{Point2D, Rect};
use crate::math::SCALE;
use crate::vec2::Vector2D;
use crate::world::{accels_within, positions_within, World};
use crate::{FRAME_POS_LIMIT, WINDOW_HEIGHT, WINDOW_WIDHT};

verus! {

/// Horizontal spawn coordinate of the player: the screen center.
pub const SPAWN_X: i32 = 640;

/// Vertical spawn coordinate of the player: the screen center.
pub const SPAWN_Y: i32 = 360;

/// Relies on rand::Rng::gen_range over an `i32` range: the result lies in
/// `[lo, hi)`. An empty range would panic and is excluded.
#[verifier::external_body]
fn rand_range_i32(lo: i32, hi: i32) -> (r: i32)
    requires
        lo < hi,
    ensures
        lo <= r < hi,
{
    rand::thread_rng().gen_range(lo..hi)
}

/// Relies on rand::random::<bool>: a coin flip; nothing is promised of the
/// outcome.
#[verifier::external_body]
fn rand_coin() -> bool {
    rand::random::<bool>()
}

/// A spawn position in the band just around the screen: an even index pins
/// x to one of the two horizontal off-screen edges and draws y across the
/// band; an odd index does the transpose.
pub fn random_pos_xy(i: i32) -> (p: (i32, i32))
    requires
        i >= 0,
    ensures
        i % 2 == 0 ==> (p.0 == -17 || p.0 == WINDOW_WIDHT + 17) && -17 <= p.1 < WINDOW_HEIGHT
            + 17,
        i % 2 != 0 ==> -17 <= p.0 < WINDOW_WIDHT + 17 && (p.1 == -17 || p.1 == WINDOW_HEIGHT
            + 17),
{
    let rand_x: i32 = if i % 2 == 0 {
        if rand_coin() {
            -17
        } else {
            WINDOW_WIDHT + 17
        }
    } else {
        rand_range_i32(-17, WINDOW_WIDHT + 17)
    };
    let rand_y: i32 = if i % 2 == 0 {
        rand_range_i32(-17, WINDOW_HEIGHT + 17)
    } else {
        if rand_coin() {
            -17
        } else {
            WINDOW_HEIGHT + 17
        }
    };
    (rand_x, rand_y)
}

/// The sprite-sheet region of one of the three mob appearances.
pub fn mob_src_rect(r: i32) -> (rect: Rect)
    requires
        0 <= r < 3,
    ensures
        r == 0 ==> rect == (Rect { x: 0, y: 0, w: 48, h: 48 }),
        r == 1 ==> rect == (Rect { x: 48, y: 0, w: 48, h: 48 }),
        r == 2 ==> rect == (Rect { x: 0, y: 48, w: 48, h: 51 }),
{
    if r == 0 {
        Rect::new(0, 0, 48, 48)
    } else if r == 1 {
        Rect::new(48, 0, 48, 48)
    } else {
        Rect::new(0, 48, 48, 51)
    }
}

/// Builds the starting world in an empty store: entity `0` is the player at
/// the screen center with zero acceleration, followed by `mob_count` mobs,
/// each with sprite, movement, acceleration and a valid orbit direction,
/// spawned in the screen-edge band. Returns the player's identifier.
pub fn setup_world(world: &mut World, mob_count: u32) -> (pla: usize)
    requires
        old(world).wf(),
        old(world).num_entities() == 0,
        mob_count <= 4000,
    ensures
        pla == 0,
        final(world).wf(),
        final(world).num_entities() == 1 + mob_count,
        final(world).players@[0] is Some,
        final(world).mobs@[0] is None,
        final(world).sprites@[0] is Some,
        final(world).accelerations@[0] is Some,
        final(world).movements@[0] is Some,
        final(world).position_of(0).x == (SPAWN_X as int) * (SCALE as int),
        final(world).position_of(0).y == (SPAWN_Y as int) * (SCALE as int),
        forall|j: int|
            1 <= j < final(world).num_entities() ==> #[trigger] final(world).is_mob(j)
                && final(world).sprites@[j] is Some && (final(world).rot_of(j) == (Vector2D {
                x: -1i64,
                y: 1i64,
            }) || final(world).rot_of(j) == (Vector2D { x: 1i64, y: -1i64 })),
        positions_within(*final(world), FRAME_POS_LIMIT as int),
        accels_within(*final(world), SCALE as int),
{
    let pla: usize = world.create_entity();
    world.attach_player(pla, PlayerComp {  });
    world.attach_sprite(
        pla,
        SpriteComp { srs: Rect::new(48, 48, 48, 51), pos: Point2D::new(SPAWN_X, SPAWN_Y) },
    );
    let px: i64 = (SPAWN_X as i64) * SCALE;
    let py: i64 = (SPAWN_Y as i64) * SCALE;
    world.attach_movement(pla, MovementComp { position: Vector2D { x: px, y: py } });
    world.attach_acceleration(pla, AccelerationComp { acceleration: Vector2D { x: 0, y: 0 } });
    let mut i: u32 = 0;
    while i < mob_count
        invariant
            world.wf(),
            world.num_entities() == 1 + i,
            i <= mob_count,
            mob_count <= 4000,
            world.players@[0] is Some,
            world.mobs@[0] is None,
            world.sprites@[0] is Some,
            world.accelerations@[0] is Some,
            world.movements@[0] is Some,
            world.position_of(0).x == (SPAWN_X as int) * (SCALE as int),
            world.position_of(0).y == (SPAWN_Y as int) * (SCALE as int),
            world.accel_of(0).x == 0 && world.accel_of(0).y == 0,
            forall|j: int|
                1 <= j < world.num_entities() ==> #[trigger] world.mobs@[j] is Some
                    && world.sprites@[j] is Some && world.accelerations@[j] is Some
                    && world.movements@[j] is Some && (world.mobs@[j]->Some_0.rotate_dir
                    == (Vector2D { x: -1i64, y: 1i64 }) || world.mobs@[j]->Some_0.rotate_dir
                    == (Vector2D { x: 1i64, y: -1i64 })),
            forall|j: int|
                1 <= j < world.num_entities()
                    ==> -17_000 <= (#[trigger] world.movements@[j])->Some_0.position.x
                        <= 1_297_000
                    && -17_000 <= world.movements@[j]->Some_0.position.y <= 737_000,
            forall|j: int|
                1 <= j < world.num_entities()
                    ==> (#[trigger] world.accelerations@[j])->Some_0.acceleration.x == 0
                    && world.accelerations@[j]->Some_0.acceleration.y == 0,
        decreases mob_count - i,
    {
        let r: i32 = rand_range_i32(0, 3);
        let mob_src = mob_src_rect(r);
        let p = random_pos_xy(i as i32);
        let rand_x: i32 = p.0;
        let rand_y: i32 = p.1;
        let flip = rand_coin();
        let ox: i64 = if flip {
            -1
        } else {
            1
        };
        let oy: i64 = if flip {
            1
        } else {
            -1
        };
        let e: usize = world.create_entity();
        world.attach_sprite(e, SpriteComp { srs: mob_src, pos: Point2D::new(rand_x, rand_y) });
        world.attach_movement(
            e,
            MovementComp {
                position: Vector2D { x: (rand_x as i64) * SCALE, y: (rand_y as i64) * SCALE },
            },
        );
        world.attach_acceleration(e, AccelerationComp { acceleration: Vector2D { x: 0, y: 0 } });
        world.attach_mob(e, MobComp { rotate_dir: Vector2D { x: ox, y: oy } });
        i = i + 1;
    }
    proof {
        assert forall|j: int|
            0 <= j < world.num_entities() && (#[trigger] world.movements@[j]) is Some implies
            -(FRAME_POS_LIMIT as int) <= world.position_of(j).x <= FRAME_POS_LIMIT as int
                && -(FRAME_POS_LIMIT as int) <= world.position_of(j).y
                <= FRAME_POS_LIMIT as int by {
            if j >= 1 {
                assert(world.position_of(j).x >= -17_000);
            }
        }
        assert forall|j: int|
            0 <= j < world.num_entities() && (#[trigger] world.accelerations@[j]) is Some implies
            -(SCALE as int) <= world.accel_of(j).x <= SCALE as int && -(SCALE as int)
                <= world.accel_of(j).y <= SCALE as int by {
            if j >= 1 {
                assert(world.accel_of(j).x == 0);
            }
        }
    }
    pla
}

} // verus!

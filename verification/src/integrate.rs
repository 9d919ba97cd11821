//! The integrator: advances every kinematic entity's position by its
//! acceleration scaled by speed and elapsed time, resets the acceleration,
//! and mirrors the truncated position into the sprite.

use vstd::prelude::*;
use crate::components::{AccelerationComp, MovementComp, SpriteComp};
use crate::geom::Point2D;
use crate::math::{
    lemma_scaled_ratio_mag, scaled_ratio, scaled_ratio_spec, SCALE,
};
use crate::vec2::Vector2D;
use crate::world::{accels_within, positions_within, World};
use crate::{ACC_LIMIT, FRAME_POS_LIMIT, POS_LIMIT, SPEED_DT_LIMIT};

verus! {

/// Position change along one axis for one frame: acceleration (milli-units)
/// times speed (pixels per second) times elapsed time (microseconds),
/// yielding milli-pixels with truncating division.
pub open spec fn delta_spec(a: int, vel: int, dt_us: int) -> int {
    scaled_ratio_spec(a, vel * dt_us, 1_000_000)
}

/// One integration step moves a bounded acceleration by less than
/// `800_000_000` milli-pixels.
pub proof fn lemma_delta_bound(a: int, vel: int, dt_us: int)
    requires
        -(ACC_LIMIT as int) <= a <= ACC_LIMIT as int,
        0 <= vel,
        0 <= dt_us,
        vel * dt_us <= SPEED_DT_LIMIT as int,
    ensures
        -800_000_000 <= delta_spec(a, vel, dt_us) <= 800_000_000,
{
    let num = vel * dt_us;
    vstd::arithmetic::mul::lemma_mul_nonnegative(vel, dt_us);
    lemma_scaled_ratio_mag(a, num, 1_000_000);
    let mag = if a >= 0 { a } else { -a };
    assert(mag * num <= 800_000_000_000_000) by (nonlinear_arith)
        requires 0 <= mag <= 8_000_000 && 0 <= num <= 100_000_000;
    vstd::arithmetic::div_mod::lemma_div_is_ordered(mag * num, 800_000_000_000_000, 1_000_000);
    assert(800_000_000_000_000int / 1_000_000int == 800_000_000);
}

/// Integration under zero acceleration is the identity on position,
/// whatever the speed and elapsed time: the per-axis step is zero, so
/// `integrate` leaves every such position unchanged.
pub proof fn lemma_integrate_zero_accel(vel: int, dt_us: int)
    ensures
        delta_spec(0, vel, dt_us) == 0,
{
    assert(0 * (vel * dt_us) == 0) by (nonlinear_arith);
    vstd::arithmetic::div_mod::lemma_div_of0(1_000_000);
}

/// The integrator pass: for every entity with acceleration, sprite and
/// movement, the position advances by `delta_spec` per axis, the
/// acceleration is reset to zero, and the sprite position becomes the
/// truncated (toward zero) pixel position. A zero elapsed time freezes
/// motion for the frame; nothing fails. Everything else is untouched.
pub fn integrate(world: &mut World, vel: u64, dt_us: u64)
    requires
        old(world).wf(),
        vel * dt_us <= SPEED_DT_LIMIT,
        positions_within(*old(world), FRAME_POS_LIMIT as int),
        accels_within(*old(world), ACC_LIMIT as int),
    ensures
        final(world).wf(),
        final(world).num_entities() == old(world).num_entities(),
        final(world).players@ == old(world).players@,
        final(world).mobs@ == old(world).mobs@,
        positions_within(*final(world), POS_LIMIT as int),
        forall|i: int|
            0 <= i < old(world).num_entities() ==> final(world).movements@[i] == (
            if old(world).is_kinematic(i) {
                Some(
                    MovementComp {
                        position: Vector2D {
                            x: (old(world).position_of(i).x + delta_spec(
                                old(world).accel_of(i).x as int,
                                vel as int,
                                dt_us as int,
                            )) as i64,
                            y: (old(world).position_of(i).y + delta_spec(
                                old(world).accel_of(i).y as int,
                                vel as int,
                                dt_us as int,
                            )) as i64,
                        },
                    },
                )
            } else {
                old(world).movements@[i]
            }),
        forall|i: int|
            0 <= i < old(world).num_entities() ==> final(world).accelerations@[i] == (
            if old(world).is_kinematic(i) {
                Some(AccelerationComp { acceleration: Vector2D { x: 0, y: 0 } })
            } else {
                old(world).accelerations@[i]
            }),
        forall|i: int|
            0 <= i < old(world).num_entities() ==> final(world).sprites@[i] == (
            if old(world).is_kinematic(i) {
                Some(
                    SpriteComp {
                        srs: old(world).sprites@[i]->Some_0.srs,
                        pos: Point2D {
                            x: scaled_ratio_spec(
                                final(world).position_of(i).x as int,
                                1,
                                SCALE as int,
                            ) as i32,
                            y: scaled_ratio_spec(
                                final(world).position_of(i).y as int,
                                1,
                                SCALE as int,
                            ) as i32,
                        },
                    },
                )
            } else {
                old(world).sprites@[i]
            }),
{
    let n: usize = world.sprites.len();
    let step: u64 = vel * dt_us;
    let mut e: usize = 0;
    while e < n
        invariant
            world.wf(),
            n == world.num_entities(),
            world.num_entities() == old(world).num_entities(),
            e <= n,
            step == vel * dt_us,
            step <= SPEED_DT_LIMIT,
            positions_within(*old(world), FRAME_POS_LIMIT as int),
            accels_within(*old(world), ACC_LIMIT as int),
            positions_within(*world, POS_LIMIT as int),
            world.players@ == old(world).players@,
            world.mobs@ == old(world).mobs@,
            forall|i: int|
                0 <= i < e ==> world.movements@[i] == (
                if old(world).is_kinematic(i) {
                    Some(
                        MovementComp {
                            position: Vector2D {
                                x: (old(world).position_of(i).x + delta_spec(
                                    old(world).accel_of(i).x as int,
                                    vel as int,
                                    dt_us as int,
                                )) as i64,
                                y: (old(world).position_of(i).y + delta_spec(
                                    old(world).accel_of(i).y as int,
                                    vel as int,
                                    dt_us as int,
                                )) as i64,
                            },
                        },
                    )
                } else {
                    old(world).movements@[i]
                }),
            forall|i: int|
                0 <= i < e ==> world.accelerations@[i] == (
                if old(world).is_kinematic(i) {
                    Some(AccelerationComp { acceleration: Vector2D { x: 0, y: 0 } })
                } else {
                    old(world).accelerations@[i]
                }),
            forall|i: int|
                0 <= i < e ==> world.sprites@[i] == (
                if old(world).is_kinematic(i) {
                    Some(
                        SpriteComp {
                            srs: old(world).sprites@[i]->Some_0.srs,
                            pos: Point2D {
                                x: scaled_ratio_spec(
                                    world.position_of(i).x as int,
                                    1,
                                    SCALE as int,
                                ) as i32,
                                y: scaled_ratio_spec(
                                    world.position_of(i).y as int,
                                    1,
                                    SCALE as int,
                                ) as i32,
                            },
                        },
                    )
                } else {
                    old(world).sprites@[i]
                }),
            forall|i: int|
                e <= i < n ==> world.movements@[i] == old(world).movements@[i]
                    && world.accelerations@[i] == old(world).accelerations@[i]
                    && world.sprites@[i] == old(world).sprites@[i],
        decreases n - e,
    {
        if world.accelerations[e].is_some() && world.sprites[e].is_some()
            && world.movements[e].is_some() {
            proof {
                assert(old(world).is_kinematic(e as int));
                assert(old(world).movements@[e as int] is Some);
                assert(old(world).accelerations@[e as int] is Some);
            }
            let acc: Vector2D = world.accelerations[e].unwrap().acceleration;
            let mut pos: Vector2D = world.movements[e].unwrap().position;
            proof {
                assert(world.accelerations@[e as int] == old(world).accelerations@[e as int]);
                assert(world.movements@[e as int] == old(world).movements@[e as int]);
                assert(old(world).accelerations@[e as int] is Some);
                assert(old(world).movements@[e as int] is Some);
                assert(acc == old(world).accel_of(e as int));
                assert(pos == old(world).position_of(e as int));
                assert(-(ACC_LIMIT as int) <= acc.x <= ACC_LIMIT as int) by {
                    assert(accels_within(*old(world), ACC_LIMIT as int));
                    assert(0 <= (e as int) && (e as int) < old(world).num_entities());
                    assert(old(world).accelerations@[e as int] is Some);
                }
                assert(-(FRAME_POS_LIMIT as int) <= pos.x <= FRAME_POS_LIMIT as int) by {
                    assert(positions_within(*old(world), FRAME_POS_LIMIT as int));
                    assert(0 <= (e as int) && (e as int) < old(world).num_entities());
                    assert(old(world).movements@[e as int] is Some);
                }
                lemma_delta_bound(acc.x as int, vel as int, dt_us as int);
                lemma_delta_bound(acc.y as int, vel as int, dt_us as int);
                lemma_scaled_ratio_mag(acc.x as int, step as int, 1_000_000);
                lemma_scaled_ratio_mag(acc.y as int, step as int, 1_000_000);
            }
            let dx: i64 = scaled_ratio(acc.x, step, 1_000_000);
            let dy: i64 = scaled_ratio(acc.y, step, 1_000_000);
            pos = Vector2D { x: pos.x + dx, y: pos.y + dy };
            world.movements[e] = Some(MovementComp { position: pos });
            world.accelerations[e] = Some(
                AccelerationComp { acceleration: Vector2D { x: 0, y: 0 } },
            );
            proof {
                lemma_scaled_ratio_mag(pos.x as int, 1, SCALE as int);
                lemma_scaled_ratio_mag(pos.y as int, 1, SCALE as int);
                assert((if pos.x >= 0 { pos.x as int } else { -pos.x as int }) * 1 <= 1_000_000_000);
                vstd::arithmetic::div_mod::lemma_div_is_ordered(
                    (if pos.x >= 0 { pos.x as int } else { -pos.x as int }) * 1,
                    1_000_000_000,
                    SCALE as int,
                );
                vstd::arithmetic::div_mod::lemma_div_is_ordered(
                    (if pos.y >= 0 { pos.y as int } else { -pos.y as int }) * 1,
                    1_000_000_000,
                    SCALE as int,
                );
                assert(1_000_000_000int / 1000int == 1_000_000);
            }
            let sx: i64 = scaled_ratio(pos.x, 1, SCALE as u64);
            let sy: i64 = scaled_ratio(pos.y, 1, SCALE as u64);
            let srs = world.sprites[e].unwrap().srs;
            world.sprites[e] = Some(
                SpriteComp { srs, pos: Point2D { x: sx as i32, y: sy as i32 } },
            );
        }
        e = e + 1;
    }
}

} // verus!
